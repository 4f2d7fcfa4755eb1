use vstd::prelude::*;

use crate::errors::ErrorKind;

verus! {

/// Largest value a QUIC variable-length integer can carry: `2^62 - 1`.
pub const VARINT_MAX: u64 = 4611686018427387903;

/// Largest idle timeout, in seconds, whose millisecond conversion still fits
/// a variable-length integer: `VARINT_MAX / 1000`, rounded down.
pub const MAX_IDLE_SECONDS: u64 = 4611686018427387;

/// Default chunk size for the stream pump: 128 MiB, chosen to amortize
/// per-call overhead on large transfers.
pub const DEFAULT_BUFFER_CAP: usize = 134217728;

/// The named transport tuning values.  Every value is optional; an absent
/// value keeps the transport library's own default.  A settings value is
/// immutable once built and is consumed into the transport configuration.
#[derive(Clone, Copy, Debug, PartialEq, Eq, Structural)]
pub struct TransportSettings {
    pub stream_receive_window: Option<u64>,
    pub receive_window: Option<u64>,
    pub send_window: Option<u64>,
    pub datagram_receive_buffer_size: Option<u64>,
    pub datagram_send_buffer_size: Option<u64>,
    pub max_idle_timeout_seconds: Option<u64>,
    pub keep_alive_interval_seconds: Option<u64>,
    pub chunk_size_bytes: Option<u64>,
}

/// A configuration key is recognized when it names one of the transport
/// settings.  Every other key is silently ignored, so that configuration
/// files carrying keys meant for another version keep working.
pub open spec fn recognized_key(key: Seq<char>) -> bool {
    ||| key == "stream_receive_window"@
    ||| key == "receive_window"@
    ||| key == "send_window"@
    ||| key == "datagram_receive_buffer_size"@
    ||| key == "datagram_send_buffer_size"@
    ||| key == "max_idle_timeout_seconds"@
    ||| key == "keep_alive_interval_seconds"@
    ||| key == "chunk_size_bytes"@
}

impl TransportSettings {
    /// The all-defaults settings: no tuning value present.
    pub open spec fn default_spec() -> TransportSettings {
        (TransportSettings {
            stream_receive_window: None,
            receive_window: None,
            send_window: None,
            datagram_receive_buffer_size: None,
            datagram_send_buffer_size: None,
            max_idle_timeout_seconds: None,
            keep_alive_interval_seconds: None,
            chunk_size_bytes: None,
        })
    }

    /// Every present value fits the integer type the transport parameter
    /// requires: window sizes fit a variable-length integer, buffer sizes
    /// fit `usize`, the idle timeout still fits after conversion to
    /// milliseconds, and the chunk size is positive.
    pub open spec fn wf(self) -> bool {
        &&& (self.stream_receive_window matches Some(v) ==> v <= VARINT_MAX)
        &&& (self.receive_window matches Some(v) ==> v <= VARINT_MAX)
        &&& (self.datagram_receive_buffer_size matches Some(v) ==> v <= usize::MAX)
        &&& (self.datagram_send_buffer_size matches Some(v) ==> v * 1 <= usize::MAX)
        &&& (self.max_idle_timeout_seconds matches Some(v) ==> v * 1000 <= VARINT_MAX)
        &&& (self.chunk_size_bytes matches Some(v) ==> 1 <= v && v <= usize::MAX)
    }

    /// Builds the all-defaults settings.
    pub fn new() -> (s: TransportSettings)
        ensures
            s == TransportSettings::default_spec(),
    {
        TransportSettings {
            stream_receive_window: None,
            receive_window: None,
            send_window: None,
            datagram_receive_buffer_size: None,
            datagram_send_buffer_size: None,
            max_idle_timeout_seconds: None,
            keep_alive_interval_seconds: None,
            chunk_size_bytes: None,
        }
    }

    /// Runtime check for `wf`.
    pub fn is_wf(&self) -> (b: bool)
        ensures
            b == self.wf(),
    {
        (match self.stream_receive_window {
            Some(v) => v <= VARINT_MAX,
            None => true,
        }) && (match self.receive_window {
            Some(v) => v <= VARINT_MAX,
            None => true,
        }) && (match self.datagram_receive_buffer_size {
            Some(v) => v <= usize::MAX as u64,
            None => true,
        }) && (match self.datagram_send_buffer_size {
            Some(v) => v <= usize::MAX as u64,
            None => true,
        }) && (match self.max_idle_timeout_seconds {
            Some(v) => v <= MAX_IDLE_SECONDS,
            None => true,
        }) && (match self.chunk_size_bytes {
            Some(v) => 1 <= v && v <= usize::MAX as u64,
            None => true,
        })
    }

    /// The effective chunk size for the stream pump: the configured value
    /// where one is present and usable, the built-in default otherwise.
    pub open spec fn chunk_cap_spec(self) -> int {
        match self.chunk_size_bytes {
            Some(v) => if 1 <= v && v <= usize::MAX {
                v as int
            } else {
                DEFAULT_BUFFER_CAP as int
            },
            None => DEFAULT_BUFFER_CAP as int,
        }
    }

    /// Picks the effective chunk size; always positive.
    pub fn chunk_cap(&self) -> (cap: usize)
        ensures
            cap as int == self.chunk_cap_spec(),
            cap >= 1,
    {
        match self.chunk_size_bytes {
            Some(v) => {
                if 1 <= v && v <= usize::MAX as u64 {
                    v as usize
                } else {
                    DEFAULT_BUFFER_CAP
                }
            },
            None => DEFAULT_BUFFER_CAP,
        }
    }
}

/// Runtime check for `recognized_key`.
pub fn is_recognized_key(key: &String) -> (b: bool)
    ensures
        b == recognized_key(key@),
{
    *key == String::from_str("stream_receive_window") || *key == String::from_str("receive_window")
        || *key == String::from_str("send_window") || *key == String::from_str(
        "datagram_receive_buffer_size",
    ) || *key == String::from_str("datagram_send_buffer_size") || *key == String::from_str(
        "max_idle_timeout_seconds",
    ) || *key == String::from_str("keep_alive_interval_seconds") || *key == String::from_str(
        "chunk_size_bytes",
    )
}

/// The effect of one configuration entry on the settings.  A recognized key
/// whose value cannot be coerced to the parameter's integer type (negative,
/// or out of the parameter's range) is a fatal configuration error; an
/// unrecognized key leaves the settings unchanged.
pub open spec fn apply_entry(s: TransportSettings, key: Seq<char>, v: int) -> Result<
    TransportSettings,
    ErrorKind,
> {
    if key == "stream_receive_window"@ {
        if 0 <= v && v <= VARINT_MAX as int {
            Ok((TransportSettings { stream_receive_window: Some(v as u64), ..s }))
        } else {
            Err(ErrorKind::Config)
        }
    } else if key == "receive_window"@ {
        if 0 <= v && v <= VARINT_MAX as int {
            Ok((TransportSettings { receive_window: Some(v as u64), ..s }))
        } else {
            Err(ErrorKind::Config)
        }
    } else if key == "send_window"@ {
        if 0 <= v {
            Ok((TransportSettings { send_window: Some(v as u64), ..s }))
        } else {
            Err(ErrorKind::Config)
        }
    } else if key == "datagram_receive_buffer_size"@ {
        if 0 <= v && v <= usize::MAX as int {
            Ok((TransportSettings { datagram_receive_buffer_size: Some(v as u64), ..s }))
        } else {
            Err(ErrorKind::Config)
        }
    } else if key == "datagram_send_buffer_size"@ {
        if 0 <= v && v <= usize::MAX as int {
            Ok((TransportSettings { datagram_send_buffer_size: Some(v as u64), ..s }))
        } else {
            Err(ErrorKind::Config)
        }
    } else if key == "max_idle_timeout_seconds"@ {
        if 0 <= v && v * 1000 <= VARINT_MAX as int {
            Ok((TransportSettings { max_idle_timeout_seconds: Some(v as u64), ..s }))
        } else {
            Err(ErrorKind::Config)
        }
    } else if key == "keep_alive_interval_seconds"@ {
        if 0 <= v {
            Ok((TransportSettings { keep_alive_interval_seconds: Some(v as u64), ..s }))
        } else {
            Err(ErrorKind::Config)
        }
    } else if key == "chunk_size_bytes"@ {
        if 1 <= v && v <= usize::MAX as int {
            Ok((TransportSettings { chunk_size_bytes: Some(v as u64), ..s }))
        } else {
            Err(ErrorKind::Config)
        }
    } else {
        Ok(s)
    }
}

/// The settings that a whole sequence of configuration entries produces,
/// applied in order, stopping at the first invalid entry.
pub open spec fn fold_entries(s: TransportSettings, entries: Seq<(String, i64)>) -> Result<
    TransportSettings,
    ErrorKind,
> decreases entries.len(),
{
    if entries.len() == 0 {
        Ok(s)
    } else {
        match apply_entry(s, entries[0].0@, entries[0].1 as int) {
            Ok(s2) => fold_entries(s2, entries.drop_first()),
            Err(e) => Err(e),
        }
    }
}

/// Applies one configuration entry.
fn apply_one(s: &TransportSettings, key: &String, v: i64) -> (r: Result<
    TransportSettings,
    ErrorKind,
>)
    ensures
        r == apply_entry(*s, key@, v as int),
        r matches Ok(s2) ==> (s.wf() ==> s2.wf()),
{
    if *key == String::from_str("stream_receive_window") {
        if v >= 0 && v as u64 <= VARINT_MAX {
            Ok(TransportSettings { stream_receive_window: Some(v as u64), ..*s })
        } else {
            Err(ErrorKind::Config)
        }
    } else if *key == String::from_str("receive_window") {
        if v >= 0 && v as u64 <= VARINT_MAX {
            Ok(TransportSettings { receive_window: Some(v as u64), ..*s })
        } else {
            Err(ErrorKind::Config)
        }
    } else if *key == String::from_str("send_window") {
        if v >= 0 {
            Ok(TransportSettings { send_window: Some(v as u64), ..*s })
        } else {
            Err(ErrorKind::Config)
        }
    } else if *key == String::from_str("datagram_receive_buffer_size") {
        if v >= 0 && v as u64 <= usize::MAX as u64 {
            Ok(TransportSettings { datagram_receive_buffer_size: Some(v as u64), ..*s })
        } else {
            Err(ErrorKind::Config)
        }
    } else if *key == String::from_str("datagram_send_buffer_size") {
        if v >= 0 && v as u64 <= usize::MAX as u64 {
            Ok(TransportSettings { datagram_send_buffer_size: Some(v as u64), ..*s })
        } else {
            Err(ErrorKind::Config)
        }
    } else if *key == String::from_str("max_idle_timeout_seconds") {
        if v >= 0 && v as u64 <= MAX_IDLE_SECONDS {
            Ok(TransportSettings { max_idle_timeout_seconds: Some(v as u64), ..*s })
        } else {
            Err(ErrorKind::Config)
        }
    } else if *key == String::from_str("keep_alive_interval_seconds") {
        if v >= 0 {
            Ok(TransportSettings { keep_alive_interval_seconds: Some(v as u64), ..*s })
        } else {
            Err(ErrorKind::Config)
        }
    } else if *key == String::from_str("chunk_size_bytes") {
        if v >= 1 && v as u64 <= usize::MAX as u64 {
            Ok(TransportSettings { chunk_size_bytes: Some(v as u64), ..*s })
        } else {
            Err(ErrorKind::Config)
        }
    } else {
        Ok(*s)
    }
}

/// Builds the transport settings from the configuration's entries, applied
/// in order.  Unrecognized keys are ignored; a recognized key with an
/// uncoercible value is a fatal configuration error, and the first such
/// entry decides the outcome.
pub fn from_entries(entries: &Vec<(String, i64)>) -> (r: Result<TransportSettings, ErrorKind>)
    ensures
        r == fold_entries(TransportSettings::default_spec(), entries@),
        r matches Ok(s) ==> s.wf(),
{
    let mut cur = TransportSettings::new();
    let mut i: usize = 0;
    proof {
        assert(entries@.skip(0) =~= entries@);
    }
    while i < entries.len()
        invariant
            0 <= i <= entries@.len(),
            cur.wf(),
            fold_entries(cur, entries@.skip(i as int)) == fold_entries(
                TransportSettings::default_spec(),
                entries@,
            ),
        decreases entries@.len() - i,
    {
        proof {
            assert(entries@.skip(i as int).drop_first() =~= entries@.skip(i as int + 1));
        }
        let step = apply_one(&cur, &entries[i].0, entries[i].1);
        match step {
            Result::Ok(next) => {
                cur = next;
            },
            Result::Err(e) => {
                return Err(e);
            },
        }
        i = i + 1;
    }
    proof {
        assert(entries@.skip(i as int) =~= Seq::<(String, i64)>::empty());
    }
    Ok(cur)
}

/// A configuration whose keys all lie outside the recognized set never
/// causes a configuration error and leaves every setting unchanged.
pub proof fn lemma_unknown_keys_tolerated(s: TransportSettings, entries: Seq<(String, i64)>)
    requires
        forall|i: int| 0 <= i < entries.len() ==> !recognized_key(#[trigger] entries[i].0@),
    ensures
        fold_entries(s, entries) == Ok::<TransportSettings, ErrorKind>(s),
    decreases entries.len(),
{
    if entries.len() > 0 {
        assert(!recognized_key(entries[0].0@));
        assert(apply_entry(s, entries[0].0@, entries[0].1 as int) == Ok::<
            TransportSettings,
            ErrorKind,
        >(s));
        assert(forall|i: int|
            0 <= i < entries.drop_first().len() ==> !recognized_key(
                #[trigger] entries.drop_first()[i].0@,
            ));
        lemma_unknown_keys_tolerated(s, entries.drop_first());
    }
}

/// A sequence of one entry applies that entry exactly once.
pub proof fn lemma_fold_singleton(s: TransportSettings, entry: (String, i64))
    ensures
        fold_entries(s, seq![entry]) == apply_entry(s, entry.0@, entry.1 as int),
{
    assert(seq![entry].drop_first() =~= Seq::<(String, i64)>::empty());
    match apply_entry(s, entry.0@, entry.1 as int) {
        Ok(s2) => {
            assert(fold_entries(s2, seq![entry].drop_first()) == Ok::<
                TransportSettings,
                ErrorKind,
            >(s2));
        },
        Err(_) => {},
    }
}

/// Building the settings from an empty configuration is deterministic:
/// any two empty configurations produce the same settings, namely the
/// all-defaults settings, so the resulting transport configurations behave
/// identically.
pub proof fn lemma_empty_config_idempotent(e1: Seq<(String, i64)>, e2: Seq<(String, i64)>)
    requires
        e1.len() == 0,
        e2.len() == 0,
    ensures
        fold_entries(TransportSettings::default_spec(), e1) == fold_entries(
            TransportSettings::default_spec(),
            e2,
        ),
        fold_entries(TransportSettings::default_spec(), e1) == Ok::<TransportSettings, ErrorKind>(
            TransportSettings::default_spec(),
        ),
{
}

} // verus!
