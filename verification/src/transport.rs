use vstd::prelude::*;

use crate::errors::ErrorKind;
use crate::settings::{TransportSettings, MAX_IDLE_SECONDS, VARINT_MAX};

verus! {

/// The transport library's tuning parameter block, carried opaquely through
/// the verified configuration builder.
#[verifier::external_type_specification]
#[verifier::external_body]
pub struct ExTransportConfig(quinn::TransportConfig);

// Names for the parameters the builder touches inside the opaque block:
// the two receive windows and the send window, the two datagram buffer
// sizes, the idle timeout in milliseconds, the keep-alive interval in whole
// seconds, and whether the congestion controller is the BBR one.  The
// trusted wrappers below state their effects over these names.
pub uninterp spec fn stream_receive_window_of(tc: quinn::TransportConfig) -> u64;

pub uninterp spec fn receive_window_of(tc: quinn::TransportConfig) -> u64;

pub uninterp spec fn send_window_of(tc: quinn::TransportConfig) -> u64;

pub uninterp spec fn datagram_receive_buffer_size_of(tc: quinn::TransportConfig) -> Option<usize>;

pub uninterp spec fn datagram_send_buffer_size_of(tc: quinn::TransportConfig) -> usize;

pub uninterp spec fn max_idle_timeout_ms_of(tc: quinn::TransportConfig) -> Option<u64>;

pub uninterp spec fn keep_alive_interval_secs_of(tc: quinn::TransportConfig) -> Option<u64>;

pub uninterp spec fn congestion_is_bbr(tc: quinn::TransportConfig) -> bool;

/// The transport library's default stream receive window.
pub const DEFAULT_STREAM_RECEIVE_WINDOW: u64 = 1250000;

/// The transport library's default connection receive window: unlimited.
pub const DEFAULT_RECEIVE_WINDOW: u64 = 4611686018427387903;

/// The transport library's default send window.
pub const DEFAULT_SEND_WINDOW: u64 = 10000000;

/// The transport library's default datagram receive buffer size.
pub const DEFAULT_DATAGRAM_RECEIVE_BUFFER: usize = 1250000;

/// The transport library's default datagram send buffer size.
pub const DEFAULT_DATAGRAM_SEND_BUFFER: usize = 1048576;

/// The transport library's default idle timeout, in milliseconds.
pub const DEFAULT_MAX_IDLE_TIMEOUT_MS: u64 = 10000;

/// Relies on quinn::TransportConfig::default: a parameter block holding the
/// transport library's own default tuning, with the values its source
/// gives: a 1.25 MB stream receive window, an unlimited connection receive
/// window, a 10 MB send window, a 1.25 MB datagram receive buffer, a 1 MiB
/// datagram send buffer, a ten-second idle timeout and no keep-alive.
#[verifier::external_body]
fn default_transport_config() -> (r: quinn::TransportConfig)
    ensures
        stream_receive_window_of(r) == DEFAULT_STREAM_RECEIVE_WINDOW,
        receive_window_of(r) == DEFAULT_RECEIVE_WINDOW,
        send_window_of(r) == DEFAULT_SEND_WINDOW,
        datagram_receive_buffer_size_of(r) == Some(DEFAULT_DATAGRAM_RECEIVE_BUFFER),
        datagram_send_buffer_size_of(r) == DEFAULT_DATAGRAM_SEND_BUFFER,
        max_idle_timeout_ms_of(r) == Some(DEFAULT_MAX_IDLE_TIMEOUT_MS),
        keep_alive_interval_secs_of(r) == None::<u64>,
{
    quinn::TransportConfig::default()
}

/// Relies on quinn::TransportConfig::congestion_controller_factory and
/// quinn::congestion::BbrConfig::default: replaces the congestion
/// controller factory — a plain field assignment — with the BBR
/// bandwidth-delay-product controller at its defaults, touching nothing
/// else.
#[verifier::external_body]
fn use_bbr_congestion(tc: &mut quinn::TransportConfig)
    ensures
        congestion_is_bbr(*final (tc)),
        stream_receive_window_of(*final (tc)) == stream_receive_window_of(*old(tc)),
        receive_window_of(*final (tc)) == receive_window_of(*old(tc)),
        send_window_of(*final (tc)) == send_window_of(*old(tc)),
        datagram_receive_buffer_size_of(*final (tc)) == datagram_receive_buffer_size_of(*old(tc)),
        datagram_send_buffer_size_of(*final (tc)) == datagram_send_buffer_size_of(*old(tc)),
        max_idle_timeout_ms_of(*final (tc)) == max_idle_timeout_ms_of(*old(tc)),
        keep_alive_interval_secs_of(*final (tc)) == keep_alive_interval_secs_of(*old(tc)),
{
    tc.congestion_controller_factory(std::sync::Arc::new(
        quinn::congestion::BbrConfig::default(),
    ));
}

/// Relies on quinn::TransportConfig::stream_receive_window — a plain field
/// assignment — and quinn::VarInt::from_u64, which succeeds exactly below
/// `2^62`.
#[verifier::external_body]
fn set_stream_receive_window(tc: &mut quinn::TransportConfig, value: u64)
    requires
        value <= VARINT_MAX,
    ensures
        stream_receive_window_of(*final (tc)) == value,
        receive_window_of(*final (tc)) == receive_window_of(*old(tc)),
        send_window_of(*final (tc)) == send_window_of(*old(tc)),
        datagram_receive_buffer_size_of(*final (tc)) == datagram_receive_buffer_size_of(*old(tc)),
        datagram_send_buffer_size_of(*final (tc)) == datagram_send_buffer_size_of(*old(tc)),
        max_idle_timeout_ms_of(*final (tc)) == max_idle_timeout_ms_of(*old(tc)),
        keep_alive_interval_secs_of(*final (tc)) == keep_alive_interval_secs_of(*old(tc)),
        congestion_is_bbr(*final (tc)) == congestion_is_bbr(*old(tc)),
{
    tc.stream_receive_window(quinn::VarInt::from_u64(value).unwrap());
}

/// Relies on quinn::TransportConfig::receive_window — a plain field
/// assignment — and quinn::VarInt::from_u64, which succeeds exactly below
/// `2^62`.
#[verifier::external_body]
fn set_receive_window(tc: &mut quinn::TransportConfig, value: u64)
    requires
        value <= VARINT_MAX,
    ensures
        receive_window_of(*final (tc)) == value,
        stream_receive_window_of(*final (tc)) == stream_receive_window_of(*old(tc)),
        send_window_of(*final (tc)) == send_window_of(*old(tc)),
        datagram_receive_buffer_size_of(*final (tc)) == datagram_receive_buffer_size_of(*old(tc)),
        datagram_send_buffer_size_of(*final (tc)) == datagram_send_buffer_size_of(*old(tc)),
        max_idle_timeout_ms_of(*final (tc)) == max_idle_timeout_ms_of(*old(tc)),
        keep_alive_interval_secs_of(*final (tc)) == keep_alive_interval_secs_of(*old(tc)),
        congestion_is_bbr(*final (tc)) == congestion_is_bbr(*old(tc)),
{
    tc.receive_window(quinn::VarInt::from_u64(value).unwrap());
}

/// Relies on quinn::TransportConfig::send_window, a plain field assignment
/// taking any `u64`.
#[verifier::external_body]
fn set_send_window(tc: &mut quinn::TransportConfig, value: u64)
    ensures
        send_window_of(*final (tc)) == value,
        stream_receive_window_of(*final (tc)) == stream_receive_window_of(*old(tc)),
        receive_window_of(*final (tc)) == receive_window_of(*old(tc)),
        datagram_receive_buffer_size_of(*final (tc)) == datagram_receive_buffer_size_of(*old(tc)),
        datagram_send_buffer_size_of(*final (tc)) == datagram_send_buffer_size_of(*old(tc)),
        max_idle_timeout_ms_of(*final (tc)) == max_idle_timeout_ms_of(*old(tc)),
        keep_alive_interval_secs_of(*final (tc)) == keep_alive_interval_secs_of(*old(tc)),
        congestion_is_bbr(*final (tc)) == congestion_is_bbr(*old(tc)),
{
    tc.send_window(value);
}

/// Relies on quinn::TransportConfig::datagram_receive_buffer_size, a plain
/// field assignment.
#[verifier::external_body]
fn set_datagram_receive_buffer_size(tc: &mut quinn::TransportConfig, value: usize)
    ensures
        datagram_receive_buffer_size_of(*final (tc)) == Some(value),
        stream_receive_window_of(*final (tc)) == stream_receive_window_of(*old(tc)),
        receive_window_of(*final (tc)) == receive_window_of(*old(tc)),
        send_window_of(*final (tc)) == send_window_of(*old(tc)),
        datagram_send_buffer_size_of(*final (tc)) == datagram_send_buffer_size_of(*old(tc)),
        max_idle_timeout_ms_of(*final (tc)) == max_idle_timeout_ms_of(*old(tc)),
        keep_alive_interval_secs_of(*final (tc)) == keep_alive_interval_secs_of(*old(tc)),
        congestion_is_bbr(*final (tc)) == congestion_is_bbr(*old(tc)),
{
    tc.datagram_receive_buffer_size(Some(value));
}

/// Relies on quinn::TransportConfig::datagram_send_buffer_size, a plain
/// field assignment.
#[verifier::external_body]
fn set_datagram_send_buffer_size(tc: &mut quinn::TransportConfig, value: usize)
    ensures
        datagram_send_buffer_size_of(*final (tc)) == value,
        stream_receive_window_of(*final (tc)) == stream_receive_window_of(*old(tc)),
        receive_window_of(*final (tc)) == receive_window_of(*old(tc)),
        send_window_of(*final (tc)) == send_window_of(*old(tc)),
        datagram_receive_buffer_size_of(*final (tc)) == datagram_receive_buffer_size_of(*old(tc)),
        max_idle_timeout_ms_of(*final (tc)) == max_idle_timeout_ms_of(*old(tc)),
        keep_alive_interval_secs_of(*final (tc)) == keep_alive_interval_secs_of(*old(tc)),
        congestion_is_bbr(*final (tc)) == congestion_is_bbr(*old(tc)),
{
    tc.datagram_send_buffer_size(value);
}

/// Relies on quinn::TransportConfig::max_idle_timeout — a plain field
/// assignment — and quinn::VarInt::from_u64, which succeeds exactly below
/// `2^62`; the infallible `From<VarInt>` conversion wraps the value as an
/// idle timeout in milliseconds.
#[verifier::external_body]
fn set_max_idle_timeout_ms(tc: &mut quinn::TransportConfig, millis: u64)
    requires
        millis <= VARINT_MAX,
    ensures
        max_idle_timeout_ms_of(*final (tc)) == Some(millis),
        stream_receive_window_of(*final (tc)) == stream_receive_window_of(*old(tc)),
        receive_window_of(*final (tc)) == receive_window_of(*old(tc)),
        send_window_of(*final (tc)) == send_window_of(*old(tc)),
        datagram_receive_buffer_size_of(*final (tc)) == datagram_receive_buffer_size_of(*old(tc)),
        datagram_send_buffer_size_of(*final (tc)) == datagram_send_buffer_size_of(*old(tc)),
        keep_alive_interval_secs_of(*final (tc)) == keep_alive_interval_secs_of(*old(tc)),
        congestion_is_bbr(*final (tc)) == congestion_is_bbr(*old(tc)),
{
    tc.max_idle_timeout(Some(quinn::VarInt::from_u64(millis).unwrap().into()));
}

/// Relies on quinn::TransportConfig::keep_alive_interval — a plain field
/// assignment — and std's infallible Duration::from_secs, so the stored
/// interval is exactly `secs` whole seconds.
#[verifier::external_body]
fn set_keep_alive_interval_secs(tc: &mut quinn::TransportConfig, secs: u64)
    ensures
        keep_alive_interval_secs_of(*final (tc)) == Some(secs),
        stream_receive_window_of(*final (tc)) == stream_receive_window_of(*old(tc)),
        receive_window_of(*final (tc)) == receive_window_of(*old(tc)),
        send_window_of(*final (tc)) == send_window_of(*old(tc)),
        datagram_receive_buffer_size_of(*final (tc)) == datagram_receive_buffer_size_of(*old(tc)),
        datagram_send_buffer_size_of(*final (tc)) == datagram_send_buffer_size_of(*old(tc)),
        max_idle_timeout_ms_of(*final (tc)) == max_idle_timeout_ms_of(*old(tc)),
        congestion_is_bbr(*final (tc)) == congestion_is_bbr(*old(tc)),
{
    tc.keep_alive_interval(Some(std::time::Duration::from_secs(secs)));
}

/// Applies the settings to a transport parameter block.  On success the
/// congestion controller is fixed to BBR, every present tuning value is
/// applied verbatim — the idle timeout converted from seconds to
/// milliseconds — and every absent one keeps whatever the block already
/// held.  Settings holding a value outside its parameter's range are
/// rejected as a configuration error with the block left untouched.
pub fn setup_transport_config(tc: &mut quinn::TransportConfig, s: &TransportSettings) -> (r:
    Result<(), ErrorKind>)
    ensures
        r is Ok <==> s.wf(),
        r matches Err(e) ==> e == ErrorKind::Config,
        r is Err ==> *final (tc) == *old(tc),
        r is Ok ==> congestion_is_bbr(*final (tc)),
        r is Ok ==> (match s.stream_receive_window {
            Some(v) => stream_receive_window_of(*final (tc)) == v,
            None => stream_receive_window_of(*final (tc)) == stream_receive_window_of(*old(tc)),
        }),
        r is Ok ==> (match s.receive_window {
            Some(v) => receive_window_of(*final (tc)) == v,
            None => receive_window_of(*final (tc)) == receive_window_of(*old(tc)),
        }),
        r is Ok ==> (match s.send_window {
            Some(v) => send_window_of(*final (tc)) == v,
            None => send_window_of(*final (tc)) == send_window_of(*old(tc)),
        }),
        r is Ok ==> (match s.datagram_receive_buffer_size {
            Some(v) => datagram_receive_buffer_size_of(*final (tc)) == Some(v as usize),
            None => datagram_receive_buffer_size_of(*final (tc)) == datagram_receive_buffer_size_of(
                *old(tc),
            ),
        }),
        r is Ok ==> (match s.datagram_send_buffer_size {
            Some(v) => datagram_send_buffer_size_of(*final (tc)) == v as usize,
            None => datagram_send_buffer_size_of(*final (tc)) == datagram_send_buffer_size_of(
                *old(tc),
            ),
        }),
        r is Ok ==> (match s.max_idle_timeout_seconds {
            Some(v) => max_idle_timeout_ms_of(*final (tc)) == Some((1000 * v) as u64),
            None => max_idle_timeout_ms_of(*final (tc)) == max_idle_timeout_ms_of(*old(tc)),
        }),
        r is Ok ==> (match s.keep_alive_interval_seconds {
            Some(v) => keep_alive_interval_secs_of(*final (tc)) == Some(v),
            None => keep_alive_interval_secs_of(*final (tc)) == keep_alive_interval_secs_of(
                *old(tc),
            ),
        }),
{
    if !s.is_wf() {
        return Err(ErrorKind::Config);
    }
    use_bbr_congestion(tc);
    match s.stream_receive_window {
        Some(v) => set_stream_receive_window(tc, v),
        None => (),
    }
    match s.receive_window {
        Some(v) => set_receive_window(tc, v),
        None => (),
    }
    match s.send_window {
        Some(v) => set_send_window(tc, v),
        None => (),
    }
    match s.datagram_receive_buffer_size {
        Some(v) => set_datagram_receive_buffer_size(tc, v as usize),
        None => (),
    }
    match s.datagram_send_buffer_size {
        Some(v) => set_datagram_send_buffer_size(tc, v as usize),
        None => (),
    }
    match s.max_idle_timeout_seconds {
        Some(v) => set_max_idle_timeout_ms(tc, v * 1000),
        None => (),
    }
    match s.keep_alive_interval_seconds {
        Some(v) => set_keep_alive_interval_secs(tc, v),
        None => (),
    }
    Ok(())
}

/// Builds a complete transport parameter block from the settings: the
/// transport library's defaults, the congestion controller fixed to BBR,
/// and every present tuning value applied verbatim, the idle timeout
/// converted from seconds to milliseconds.  Two builds from the same
/// settings — in particular two all-default builds — yield blocks with
/// equal parameters.
pub fn build_transport_config(s: &TransportSettings) -> (r: Result<
    quinn::TransportConfig,
    ErrorKind,
>)
    ensures
        r is Ok <==> s.wf(),
        r matches Err(e) ==> e == ErrorKind::Config,
        r matches Ok(tc) ==> congestion_is_bbr(tc),
        r matches Ok(tc) ==> stream_receive_window_of(tc) == (match s.stream_receive_window {
            Some(v) => v,
            None => DEFAULT_STREAM_RECEIVE_WINDOW,
        }),
        r matches Ok(tc) ==> receive_window_of(tc) == (match s.receive_window {
            Some(v) => v,
            None => DEFAULT_RECEIVE_WINDOW,
        }),
        r matches Ok(tc) ==> send_window_of(tc) == (match s.send_window {
            Some(v) => v,
            None => DEFAULT_SEND_WINDOW,
        }),
        r matches Ok(tc) ==> datagram_receive_buffer_size_of(tc) == Some(
            match s.datagram_receive_buffer_size {
                Some(v) => v as usize,
                None => DEFAULT_DATAGRAM_RECEIVE_BUFFER,
            },
        ),
        r matches Ok(tc) ==> datagram_send_buffer_size_of(tc) == (
        match s.datagram_send_buffer_size {
            Some(v) => v as usize,
            None => DEFAULT_DATAGRAM_SEND_BUFFER,
        }),
        r matches Ok(tc) ==> max_idle_timeout_ms_of(tc) == Some(
            match s.max_idle_timeout_seconds {
                Some(v) => (1000 * v) as u64,
                None => DEFAULT_MAX_IDLE_TIMEOUT_MS,
            },
        ),
        r matches Ok(tc) ==> keep_alive_interval_secs_of(tc) == (
        match s.keep_alive_interval_seconds {
            Some(v) => Some(v),
            None => None::<u64>,
        }),
{
    let mut tc = default_transport_config();
    match setup_transport_config(&mut tc, s) {
        Result::Ok(_) => Ok(tc),
        Result::Err(e) => Err(e),
    }
}

} // verus!
