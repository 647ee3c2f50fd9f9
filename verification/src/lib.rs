//! Verified core of a work-stealing future runtime and its mio reactor:
//! the scheduling state machines, the task queues, the packed epoch
//! counter, the reactor's dispatcher table and the socket layer.
pub mod dispatcher;
pub mod dispatcher_table;
pub mod epoch;
pub mod net;
pub mod protocol;
pub mod refinement;
pub mod rng;
pub mod task_list;
pub mod task_status;
pub mod worker;
pub mod worker_loop;
