use std::time::Duration;
use vstd::prelude::*;

verus! {

/// The kinds of I/O failure that the library tells apart.
#[derive(Clone, Copy, Debug, PartialEq, Eq, Structural)]
pub enum IoErrorKind {
    NotFound,
    PermissionDenied,
    ConnectionRefused,
    ConnectionReset,
    BrokenPipe,
    WouldBlock,
    TimedOut,
    Interrupted,
    UnexpectedEof,
    Other,
}

/// An I/O failure: the error itself, as the operating system or mio gave
/// it, with its kind and, where there is one, its operating-system code.
#[derive(Debug)]
pub struct IoError {
    pub kind: IoErrorKind,
    pub raw_os_error: Option<i32>,
    pub error: std::io::Error,
}

/// Whether `out` describes `error`: it holds the error itself, with the kind
/// and the code that the error gives.
pub open spec fn describes(out: IoError, error: std::io::Error) -> bool {
    &&& out.kind == io_error_kind_of(error)
    &&& out.raw_os_error == io_error_code_of(error)
    &&& out.error == error
}

#[verifier::external_type_specification]
#[verifier::external_body]
pub struct ExIoError(std::io::Error);

/// A mio stream, held opaquely: its type cannot be declared to Verus here,
/// because its name is that of the library's `TcpStream`.
#[verifier::external_body]
pub struct MioTcpStream {
    pub stream: mio::net::TcpStream,
}

/// A mio listener, held opaquely: its type cannot be declared to Verus here,
/// because its name is that of the library's `TcpListener`.
#[verifier::external_body]
pub struct MioTcpListener {
    pub listener: mio::net::TcpListener,
}

/// The kind that `std::io::Error::kind` gives of `error`, as the library
/// tells kinds apart: a function of the error value alone.
pub uninterp spec fn io_error_kind_of(error: std::io::Error) -> IoErrorKind;

/// The code that `std::io::Error::raw_os_error` gives of `error`: a function
/// of the error value alone.
pub uninterp spec fn io_error_code_of(error: std::io::Error) -> Option<i32>;

/// Calls `std::io::Error::kind` and tells its variants apart.
#[verifier::external_body]
fn io_error_kind(error: &std::io::Error) -> (kind: IoErrorKind)
    ensures
        kind == io_error_kind_of(*error),
{
    match error.kind() {
        std::io::ErrorKind::NotFound => IoErrorKind::NotFound,
        std::io::ErrorKind::PermissionDenied => IoErrorKind::PermissionDenied,
        std::io::ErrorKind::ConnectionRefused => IoErrorKind::ConnectionRefused,
        std::io::ErrorKind::ConnectionReset => IoErrorKind::ConnectionReset,
        std::io::ErrorKind::BrokenPipe => IoErrorKind::BrokenPipe,
        std::io::ErrorKind::WouldBlock => IoErrorKind::WouldBlock,
        std::io::ErrorKind::TimedOut => IoErrorKind::TimedOut,
        std::io::ErrorKind::Interrupted => IoErrorKind::Interrupted,
        std::io::ErrorKind::UnexpectedEof => IoErrorKind::UnexpectedEof,
        _ => IoErrorKind::Other,
    }
}

/// Calls `std::io::Error::raw_os_error`: the operating system's code, if any.
#[verifier::external_body]
fn io_error_raw_os_error(error: &std::io::Error) -> (code: Option<i32>)
    ensures
        code == io_error_code_of(*error),
{
    error.raw_os_error()
}

impl IoError {
    /// The library's description of `error`, holding `error` itself.
    pub fn from_io(error: std::io::Error) -> (r: IoError)
        ensures
            r.kind == io_error_kind_of(error),
            r.raw_os_error == io_error_code_of(error),
            r.error == error,
    {
        let kind = io_error_kind(&error);
        let raw_os_error = io_error_raw_os_error(&error);
        IoError { kind, raw_os_error, error }
    }

    /// Whether the operation would have blocked and should be retried once
    /// the source is ready.
    pub fn would_block(&self) -> (r: bool)
        ensures
            r == (self.kind == IoErrorKind::WouldBlock),
    {
        self.kind == IoErrorKind::WouldBlock
    }
}

/// The outcome of an I/O call with its error described by the library:
/// success and its value are kept as they are, and an error is handed on
/// with its kind and code.
pub fn lift_io<T>(r: Result<T, std::io::Error>) -> (out: Result<T, IoError>)
    ensures
        r is Ok <==> out is Ok,
        r is Ok ==> out->Ok_0 == r->Ok_0,
        r is Err ==> describes(out->Err_0, r->Err_0),
{
    match r {
        Ok(v) => Ok(v),
        Err(e) => Err(IoError::from_io(e)),
    }
}

/// What to do with the outcome of one non-blocking I/O attempt.
pub enum IoPoll<T> {
    /// The operation is over, with this outcome.
    Ready(Result<T, IoError>),
    /// The operation would block: wait for readiness, then try again.
    Wait,
}

/// Decides on the outcome of one non-blocking I/O attempt: a "would block"
/// failure means wait and retry; success and every other failure end the
/// operation with that outcome.
pub fn io_poll_step<T>(r: Result<T, IoError>) -> (p: IoPoll<T>)
    ensures
        r is Ok ==> p == IoPoll::Ready(r),
        r is Err && r->Err_0.kind == IoErrorKind::WouldBlock ==> p is Wait,
        r is Err && r->Err_0.kind != IoErrorKind::WouldBlock ==> p == IoPoll::Ready(r),
{
    match r {
        Ok(v) => IoPoll::Ready(Ok(v)),
        Err(e) => {
            if e.would_block() {
                IoPoll::Wait
            } else {
                IoPoll::Ready(Err(e))
            }
        },
    }
}

/// Calls `mio::net::TcpStream::try_clone`; the outcome depends on the operating system.
#[verifier::external_body]
fn stream_try_clone(socket: &MioTcpStream) -> Result<MioTcpStream, std::io::Error> {
    match socket.stream.try_clone() {
        Ok(stream) => Ok(MioTcpStream { stream }),
        Err(e) => Err(e),
    }
}

/// Calls `mio::net::TcpStream::take_error`; the outcome depends on the operating system.
#[verifier::external_body]
fn stream_take_error(socket: &MioTcpStream) -> Result<Option<std::io::Error>, std::io::Error> {
    socket.stream.take_error()
}

/// Calls `mio::net::TcpStream::set_nodelay`; the outcome depends on the operating system.
#[verifier::external_body]
fn stream_set_nodelay(socket: &MioTcpStream, nodelay: bool) -> Result<(), std::io::Error> {
    socket.stream.set_nodelay(nodelay)
}

/// Calls `mio::net::TcpStream::nodelay`; the outcome depends on the operating system.
#[verifier::external_body]
fn stream_nodelay(socket: &MioTcpStream) -> Result<bool, std::io::Error> {
    socket.stream.nodelay()
}

/// Calls `mio::net::TcpStream::set_recv_buffer_size`; the outcome depends on the operating system.
#[verifier::external_body]
fn stream_set_recv_buffer_size(socket: &MioTcpStream, size: usize) -> Result<(), std::io::Error> {
    socket.stream.set_recv_buffer_size(size)
}

/// Calls `mio::net::TcpStream::recv_buffer_size`; the outcome depends on the operating system.
#[verifier::external_body]
fn stream_recv_buffer_size(socket: &MioTcpStream) -> Result<usize, std::io::Error> {
    socket.stream.recv_buffer_size()
}

/// Calls `mio::net::TcpStream::set_send_buffer_size`; the outcome depends on the operating system.
#[verifier::external_body]
fn stream_set_send_buffer_size(socket: &MioTcpStream, size: usize) -> Result<(), std::io::Error> {
    socket.stream.set_send_buffer_size(size)
}

/// Calls `mio::net::TcpStream::send_buffer_size`; the outcome depends on the operating system.
#[verifier::external_body]
fn stream_send_buffer_size(socket: &MioTcpStream) -> Result<usize, std::io::Error> {
    socket.stream.send_buffer_size()
}

/// The whole seconds of `d`, as `Duration::as_secs` gives them.
pub uninterp spec fn duration_secs_of(d: Duration) -> u64;

/// The nanoseconds of `d` past its whole seconds, as `Duration::subsec_nanos`
/// gives them.
pub uninterp spec fn duration_subsec_nanos_of(d: Duration) -> u32;

/// Calls `Duration::as_secs`.
#[verifier::external_body]
fn duration_as_secs(d: &Duration) -> (secs: u64)
    ensures
        secs == duration_secs_of(*d),
{
    d.as_secs()
}

/// Calls `Duration::subsec_nanos`, which is below one second.
#[verifier::external_body]
fn duration_subsec_nanos(d: &Duration) -> (nanos: u32)
    ensures
        nanos == duration_subsec_nanos_of(*d),
        nanos < 1_000_000_000,
{
    d.subsec_nanos()
}

/// Whether mio can set `keepalive`: it turns the interval into milliseconds
/// in a `u32`, as the seconds truncated to 32 bits times 1000 plus the
/// milliseconds of the fraction, and that must not overflow.
pub open spec fn keepalive_fits_spec(keepalive: Option<Duration>) -> bool {
    match keepalive {
        None => true,
        Some(d) => (duration_secs_of(d) % 0x1_0000_0000) * 1000
            + duration_subsec_nanos_of(d) / 1_000_000 <= u32::MAX,
    }
}

/// Whether `TcpStream::set_keepalive` accepts `keepalive`: the interval in
/// milliseconds fits in 32 bits.
pub fn keepalive_fits(keepalive: &Option<Duration>) -> (r: bool)
    ensures
        r == keepalive_fits_spec(*keepalive),
{
    match keepalive {
        None => true,
        Some(d) => {
            let secs = duration_as_secs(d) % 0x1_0000_0000u64;
            let millis = (duration_subsec_nanos(d) / 1_000_000) as u64;
            secs * 1000 + millis <= 0xffff_ffffu64
        },
    }
}

/// Calls `mio::net::TcpStream::set_keepalive`, which panics when the interval
/// in milliseconds overflows 32 bits; otherwise the outcome depends on the
/// operating system.
#[verifier::external_body]
fn stream_set_keepalive(socket: &MioTcpStream, keepalive: Option<Duration>) -> Result<(), std::io::Error>
    requires
        keepalive_fits_spec(keepalive),
{
    socket.stream.set_keepalive(keepalive)
}

/// Calls `mio::net::TcpStream::keepalive`; the outcome depends on the operating system.
#[verifier::external_body]
fn stream_keepalive(socket: &MioTcpStream) -> Result<Option<Duration>, std::io::Error> {
    socket.stream.keepalive()
}

/// Calls `mio::net::TcpStream::set_ttl`; the outcome depends on the operating system.
#[verifier::external_body]
fn stream_set_ttl(socket: &MioTcpStream, ttl: u32) -> Result<(), std::io::Error> {
    socket.stream.set_ttl(ttl)
}

/// Calls `mio::net::TcpStream::ttl`; the outcome depends on the operating system.
#[verifier::external_body]
fn stream_ttl(socket: &MioTcpStream) -> Result<u32, std::io::Error> {
    socket.stream.ttl()
}

/// Calls `mio::net::TcpStream::set_only_v6`; the outcome depends on the operating system.
#[verifier::external_body]
fn stream_set_only_v6(socket: &MioTcpStream, only_v6: bool) -> Result<(), std::io::Error> {
    socket.stream.set_only_v6(only_v6)
}

/// Calls `mio::net::TcpStream::only_v6`; the outcome depends on the operating system.
#[verifier::external_body]
fn stream_only_v6(socket: &MioTcpStream) -> Result<bool, std::io::Error> {
    socket.stream.only_v6()
}

/// Calls `mio::net::TcpStream::set_linger`; the outcome depends on the operating system.
#[verifier::external_body]
fn stream_set_linger(socket: &MioTcpStream, dur: Option<Duration>) -> Result<(), std::io::Error> {
    socket.stream.set_linger(dur)
}

/// Calls `mio::net::TcpStream::linger`; the outcome depends on the operating system.
#[verifier::external_body]
fn stream_linger(socket: &MioTcpStream) -> Result<Option<Duration>, std::io::Error> {
    socket.stream.linger()
}

/// Calls `mio::net::TcpListener::try_clone`; the outcome depends on the operating system.
#[verifier::external_body]
fn listener_try_clone(socket: &MioTcpListener) -> Result<MioTcpListener, std::io::Error> {
    match socket.listener.try_clone() {
        Ok(listener) => Ok(MioTcpListener { listener }),
        Err(e) => Err(e),
    }
}

/// Calls `mio::net::TcpListener::take_error`; the outcome depends on the operating system.
#[verifier::external_body]
fn listener_take_error(socket: &MioTcpListener) -> Result<Option<std::io::Error>, std::io::Error> {
    socket.listener.take_error()
}

/// Calls `mio::net::TcpListener::set_ttl`; the outcome depends on the operating system.
#[verifier::external_body]
fn listener_set_ttl(socket: &MioTcpListener, ttl: u32) -> Result<(), std::io::Error> {
    socket.listener.set_ttl(ttl)
}

/// Calls `mio::net::TcpListener::ttl`; the outcome depends on the operating system.
#[verifier::external_body]
fn listener_ttl(socket: &MioTcpListener) -> Result<u32, std::io::Error> {
    socket.listener.ttl()
}

/// Calls `mio::net::TcpListener::set_only_v6`; the outcome depends on the operating system.
#[verifier::external_body]
fn listener_set_only_v6(socket: &MioTcpListener, only_v6: bool) -> Result<(), std::io::Error> {
    socket.listener.set_only_v6(only_v6)
}

/// Calls `mio::net::TcpListener::only_v6`; the outcome depends on the operating system.
#[verifier::external_body]
fn listener_only_v6(socket: &MioTcpListener) -> Result<bool, std::io::Error> {
    socket.listener.only_v6()
}

/// The pending error of a socket, described by the library.
fn lift_pending_error(r: Result<Option<std::io::Error>, std::io::Error>) -> (out: Result<Option<IoError>, IoError>)
    ensures
        r is Ok <==> out is Ok,
        r is Ok ==> (r->Ok_0 is Some <==> out->Ok_0 is Some),
        r is Ok && r->Ok_0 is Some ==> describes(out->Ok_0->Some_0, r->Ok_0->Some_0),
        r is Err ==> describes(out->Err_0, r->Err_0),
{
    match r {
        Ok(Some(e)) => Ok(Some(IoError::from_io(e))),
        Ok(None) => Ok(None),
        Err(e) => Err(IoError::from_io(e)),
    }
}

/// A non-blocking TCP stream. Its options live in the operating system:
/// each method hands its argument to the matching mio call and passes the
/// outcome on, with an error described by `describes`. No clause states
/// which value reached mio: the socket's state is not the library's, the
/// methods take `&self`, and the outcome is not a function of the arguments.
pub struct TcpStream {
    stream: MioTcpStream,
}

impl TcpStream {
    /// The mio stream that this socket holds.
    pub closed spec fn socket(&self) -> MioTcpStream {
        self.stream
    }

    /// Wraps a connected mio stream.
    pub fn from_mio(stream: MioTcpStream) -> (r: TcpStream)
        ensures
            r.socket() == stream,
    {
        TcpStream { stream }
    }

    /// The underlying mio stream, to register it with an event loop or to read and write.
    pub fn mio_stream(&self) -> (r: &MioTcpStream)
        ensures
            *r == self.socket(),
    {
        &self.stream
    }

    /// A second handle on the same socket.
    pub fn try_clone(&self) -> (r: Result<TcpStream, IoError>)
        ensures
            r is Err ==> describes(r->Err_0, r->Err_0.error),
    {
        match lift_io(stream_try_clone(&self.stream)) {
            Ok(stream) => Ok(TcpStream::from_mio(stream)),
            Err(e) => Err(e),
        }
    }

    /// Takes the pending error of the socket (`SO_ERROR`), if any.
    pub fn take_error(&self) -> (r: Result<Option<IoError>, IoError>)
        ensures
            r is Ok && r->Ok_0 is Some ==> describes(r->Ok_0->Some_0, r->Ok_0->Some_0.error),
            r is Err ==> describes(r->Err_0, r->Err_0.error),
    {
        lift_pending_error(stream_take_error(&self.stream))
    }

    /// Sets `TCP_NODELAY` on the socket.
    pub fn set_nodelay(&self, nodelay: bool) -> (r: Result<(), IoError>)
        ensures
            r is Err ==> describes(r->Err_0, r->Err_0.error),
    {
        lift_io(stream_set_nodelay(&self.stream, nodelay))
    }

    /// Reads `TCP_NODELAY` of the socket.
    pub fn nodelay(&self) -> (r: Result<bool, IoError>)
        ensures
            r is Err ==> describes(r->Err_0, r->Err_0.error),
    {
        lift_io(stream_nodelay(&self.stream))
    }

    /// Sets `SO_RCVBUF` of the socket.
    pub fn set_recv_buffer_size(&self, size: usize) -> (r: Result<(), IoError>)
        ensures
            r is Err ==> describes(r->Err_0, r->Err_0.error),
    {
        lift_io(stream_set_recv_buffer_size(&self.stream, size))
    }

    /// Reads `SO_RCVBUF` of the socket.
    pub fn recv_buffer_size(&self) -> (r: Result<usize, IoError>)
        ensures
            r is Err ==> describes(r->Err_0, r->Err_0.error),
    {
        lift_io(stream_recv_buffer_size(&self.stream))
    }

    /// Sets `SO_SNDBUF` of the socket.
    pub fn set_send_buffer_size(&self, size: usize) -> (r: Result<(), IoError>)
        ensures
            r is Err ==> describes(r->Err_0, r->Err_0.error),
    {
        lift_io(stream_set_send_buffer_size(&self.stream, size))
    }

    /// Reads `SO_SNDBUF` of the socket.
    pub fn send_buffer_size(&self) -> (r: Result<usize, IoError>)
        ensures
            r is Err ==> describes(r->Err_0, r->Err_0.error),
    {
        lift_io(stream_send_buffer_size(&self.stream))
    }

    /// Sets the keep-alive interval of the socket (`None` turns it off). The
    /// interval in milliseconds must fit in 32 bits (see `keepalive_fits`).
    pub fn set_keepalive(&self, keepalive: Option<Duration>) -> (r: Result<(), IoError>)
        requires
            keepalive_fits_spec(keepalive),
        ensures
            r is Err ==> describes(r->Err_0, r->Err_0.error),
    {
        lift_io(stream_set_keepalive(&self.stream, keepalive))
    }

    /// Reads the keep-alive interval of the socket.
    pub fn keepalive(&self) -> (r: Result<Option<Duration>, IoError>)
        ensures
            r is Err ==> describes(r->Err_0, r->Err_0.error),
    {
        lift_io(stream_keepalive(&self.stream))
    }

    /// Sets `IP_TTL` of the socket.
    pub fn set_ttl(&self, ttl: u32) -> (r: Result<(), IoError>)
        ensures
            r is Err ==> describes(r->Err_0, r->Err_0.error),
    {
        lift_io(stream_set_ttl(&self.stream, ttl))
    }

    /// Reads `IP_TTL` of the socket.
    pub fn ttl(&self) -> (r: Result<u32, IoError>)
        ensures
            r is Err ==> describes(r->Err_0, r->Err_0.error),
    {
        lift_io(stream_ttl(&self.stream))
    }

    /// Sets `IPV6_V6ONLY` of the socket.
    pub fn set_only_v6(&self, only_v6: bool) -> (r: Result<(), IoError>)
        ensures
            r is Err ==> describes(r->Err_0, r->Err_0.error),
    {
        lift_io(stream_set_only_v6(&self.stream, only_v6))
    }

    /// Reads `IPV6_V6ONLY` of the socket.
    pub fn only_v6(&self) -> (r: Result<bool, IoError>)
        ensures
            r is Err ==> describes(r->Err_0, r->Err_0.error),
    {
        lift_io(stream_only_v6(&self.stream))
    }

    /// Sets `SO_LINGER` of the socket.
    pub fn set_linger(&self, dur: Option<Duration>) -> (r: Result<(), IoError>)
        ensures
            r is Err ==> describes(r->Err_0, r->Err_0.error),
    {
        lift_io(stream_set_linger(&self.stream, dur))
    }

    /// Reads `SO_LINGER` of the socket.
    pub fn linger(&self) -> (r: Result<Option<Duration>, IoError>)
        ensures
            r is Err ==> describes(r->Err_0, r->Err_0.error),
    {
        lift_io(stream_linger(&self.stream))
    }
}

/// A non-blocking TCP listener. Its options live in the operating system:
/// each method hands its argument to the matching mio call and passes the
/// outcome on, with an error described by `describes`. No clause states
/// which value reached mio: the socket's state is not the library's, the
/// methods take `&self`, and the outcome is not a function of the arguments.
pub struct TcpListener {
    listener: MioTcpListener,
}

impl TcpListener {
    /// The mio listener that this socket holds.
    pub closed spec fn socket(&self) -> MioTcpListener {
        self.listener
    }

    /// Wraps a bound mio listener.
    pub fn from_mio(listener: MioTcpListener) -> (r: TcpListener)
        ensures
            r.socket() == listener,
    {
        TcpListener { listener }
    }

    /// The underlying mio listener, to register it with an event loop or to accept.
    pub fn mio_listener(&self) -> (r: &MioTcpListener)
        ensures
            *r == self.socket(),
    {
        &self.listener
    }

    /// A second handle on the same socket.
    pub fn try_clone(&self) -> (r: Result<TcpListener, IoError>)
        ensures
            r is Err ==> describes(r->Err_0, r->Err_0.error),
    {
        match lift_io(listener_try_clone(&self.listener)) {
            Ok(listener) => Ok(TcpListener::from_mio(listener)),
            Err(e) => Err(e),
        }
    }

    /// Takes the pending error of the socket (`SO_ERROR`), if any.
    pub fn take_error(&self) -> (r: Result<Option<IoError>, IoError>)
        ensures
            r is Ok && r->Ok_0 is Some ==> describes(r->Ok_0->Some_0, r->Ok_0->Some_0.error),
            r is Err ==> describes(r->Err_0, r->Err_0.error),
    {
        lift_pending_error(listener_take_error(&self.listener))
    }

    /// Sets `IP_TTL` of the socket.
    pub fn set_ttl(&self, ttl: u32) -> (r: Result<(), IoError>)
        ensures
            r is Err ==> describes(r->Err_0, r->Err_0.error),
    {
        lift_io(listener_set_ttl(&self.listener, ttl))
    }

    /// Reads `IP_TTL` of the socket.
    pub fn ttl(&self) -> (r: Result<u32, IoError>)
        ensures
            r is Err ==> describes(r->Err_0, r->Err_0.error),
    {
        lift_io(listener_ttl(&self.listener))
    }

    /// Sets `IPV6_V6ONLY` of the socket.
    pub fn set_only_v6(&self, only_v6: bool) -> (r: Result<(), IoError>)
        ensures
            r is Err ==> describes(r->Err_0, r->Err_0.error),
    {
        lift_io(listener_set_only_v6(&self.listener, only_v6))
    }

    /// Reads `IPV6_V6ONLY` of the socket.
    pub fn only_v6(&self) -> (r: Result<bool, IoError>)
        ensures
            r is Err ==> describes(r->Err_0, r->Err_0.error),
    {
        lift_io(listener_only_v6(&self.listener))
    }
}

} // verus!
