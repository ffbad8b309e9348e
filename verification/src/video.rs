//! Video properties and the decisions made over them. The probe call
//! itself and its JSON framing happen outside this crate; the field
//! parsing and every derived figure live here.

use vstd::prelude::*;

use crate::text::{all_digits, dec_digit, dec_str, str_val, two_digit_str};

verus! {

/// What a probe reports about a video: duration in whole seconds, overall
/// bitrate in bits per second, frame size, and codec name.
#[derive(Debug)]
pub struct VideoInfo {
    pub duration_secs: u64,
    pub bitrate: u64,
    pub width: u32,
    pub height: u32,
    pub codec: String,
}

/// The index of the first dot, or the length when there is none.
pub open spec fn dot_index(s: Seq<char>) -> int
    decreases s.len(),
{
    if s.len() == 0 {
        0
    } else if s[0] == '.' {
        0
    } else {
        1 + dot_index(s.drop_first())
    }
}

/// A position with no dot before it and a dot (or the end) at it is the
/// first dot's index.
proof fn lemma_dot_index_at(s: Seq<char>, k: int)
    requires
        0 <= k <= s.len(),
        forall|j: int| 0 <= j < k ==> s[j] != '.',
        k == s.len() || s[k] == '.',
    ensures
        dot_index(s) == k,
    decreases s.len(),
{
    if k == 0 {
        if s.len() > 0 && s[0] != '.' {
            assert(false);
        }
    } else {
        assert(s[0] != '.');
        lemma_dot_index_at(s.drop_first(), k - 1);
    }
}

/// The whole seconds a probe's duration field denotes: the digits before
/// the first dot, zero when they are absent, malformed or out of range.
pub open spec fn whole_seconds_spec(s: Seq<char>) -> int {
    let p = s.take(dot_index(s));
    if p.len() > 0 && all_digits(p) && str_val(p) <= u64::MAX {
        str_val(p)
    } else {
        0
    }
}

/// Parse a probe duration such as "123.456" down to whole seconds.
pub fn parse_whole_seconds(s: &str) -> (r: u64)
    ensures
        r == whole_seconds_spec(s@),
{
    let n = s.unicode_len();
    let mut k: usize = 0;
    while k < n
        invariant
            k <= n,
            n == s@.len(),
            forall|j: int| 0 <= j < k ==> s@[j] != '.',
        ensures
            k <= n,
            n == s@.len(),
            forall|j: int| 0 <= j < k ==> s@[j] != '.',
            k == n || s@[k as int] == '.',
        decreases n - k,
    {
        if s.get_char(k) as u32 == 46 {
            proof {
                assert(s@[k as int] == '.');
            }
            break ;
        }
        proof {
            assert(s@[k as int] != '.');
        }
        k = k + 1;
    }
    proof {
        lemma_dot_index_at(s@, k as int);
    }
    let prefix = s.substring_char(0, k);
    proof {
        assert(prefix@ =~= s@.take(dot_index(s@)));
    }
    match crate::text::parse_u64(prefix) {
        Some(v) => v,
        None => 0,
    }
}

impl VideoInfo {
    /// Video properties from a probe's plain fields: the duration and
    /// bitrate as the decimal strings the probe printed (zero when
    /// malformed), the frame size, and the codec name.
    pub fn from_probe_fields(
        duration_str: &str,
        bitrate_str: &str,
        width: u32,
        height: u32,
        codec: String,
    ) -> (r: VideoInfo)
        ensures
            r.duration_secs == whole_seconds_spec(duration_str@),
            r.bitrate == if bitrate_str@.len() > 0 && all_digits(bitrate_str@) && str_val(
                bitrate_str@,
            ) <= u64::MAX {
                str_val(bitrate_str@)
            } else {
                0
            },
            r.width == width,
            r.height == height,
            r.codec == codec,
    {
        let duration_secs = parse_whole_seconds(duration_str);
        let bitrate = match crate::text::parse_u64(bitrate_str) {
            Some(v) => v,
            None => 0,
        };
        VideoInfo { duration_secs, bitrate, width, height, codec }
    }

    /// Whether compression to `target_bitrate` promises an improvement:
    /// exactly when the current bitrate exceeds it.
    pub fn needs_optimization(&self, target_bitrate: u64) -> (r: bool)
        ensures
            r == (self.bitrate > target_bitrate),
    {
        self.bitrate > target_bitrate
    }

    /// The size a re-encode at `target_bitrate` would come to:
    /// `target_bitrate * duration / 8` bytes, capped at the counter's
    /// range.
    pub fn estimate_compressed_size(&self, target_bitrate: u64) -> (r: u64)
        ensures
            r == crate::orchestrator::sat_cap(
                (target_bitrate as int) * (self.duration_secs as int) / 8,
            ),
    {
        proof {
            assert((target_bitrate as int) * (self.duration_secs as int) <= u128::MAX)
                by (nonlinear_arith)
                requires
                    target_bitrate <= u64::MAX,
                    self.duration_secs <= u64::MAX,
            ;
        }
        let bits: u128 = (target_bitrate as u128) * (self.duration_secs as u128);
        let bytes: u128 = bits / 8;
        if bytes > u64::MAX as u128 {
            u64::MAX
        } else {
            bytes as u64
        }
    }

    /// The frame size as "width x height".
    pub fn resolution_string(&self) -> (r: String)
        ensures
            r@ == dec_str(self.width as nat) + "x"@ + dec_str(self.height as nat),
    {
        let mut s = crate::text::u64_to_string(self.width as u64);
        s.append("x");
        s.append(crate::text::u64_to_string(self.height as u64).as_str());
        proof {
            reveal_strlit("x");
        }
        s
    }

    /// The duration as "H:MM:SS", or "M:SS" under an hour.
    pub fn duration_string(&self) -> (r: String)
        ensures
            r@ == duration_chars(self.duration_secs as int),
    {
        let total = self.duration_secs;
        let hours = total / 3600;
        let minutes = (total % 3600) / 60;
        let seconds = total % 60;
        if hours > 0 {
            let mut s = crate::text::u64_to_string(hours);
            s.append(":");
            s.append(crate::text::u64_to_two_digits(minutes).as_str());
            s.append(":");
            s.append(crate::text::u64_to_two_digits(seconds).as_str());
            proof {
                reveal_strlit(":");
            }
            s
        } else {
            let mut s = crate::text::u64_to_string(minutes);
            s.append(":");
            s.append(crate::text::u64_to_two_digits(seconds).as_str());
            proof {
                reveal_strlit(":");
            }
            s
        }
    }

    /// The bitrate with the largest sensible unit: megabits with one
    /// decimal, whole kilobits, or bits.
    pub fn bitrate_string(&self) -> (r: String)
        ensures
            r@ == bitrate_chars(self.bitrate as int),
    {
        let b = self.bitrate;
        if b >= 1000000 {
            let tenths = b / 100000;
            let mut s = crate::text::u64_to_string(tenths / 10);
            s.append(".");
            s.append(crate::text::u64_to_string(tenths % 10).as_str());
            s.append(" Mbps");
            proof {
                reveal_strlit(".");
            }
            s
        } else if b >= 1000 {
            let mut s = crate::text::u64_to_string(b / 1000);
            s.append(" kbps");
            s
        } else {
            let mut s = crate::text::u64_to_string(b);
            s.append(" bps");
            s
        }
    }
}

/// "H:MM:SS", or "M:SS" under an hour.
pub open spec fn duration_chars(total: int) -> Seq<char> {
    let hours = total / 3600;
    let minutes = (total % 3600) / 60;
    let seconds = total % 60;
    if hours > 0 {
        dec_str(hours as nat) + ":"@ + two_digit_str(minutes) + ":"@ + two_digit_str(seconds)
    } else {
        dec_str(minutes as nat) + ":"@ + two_digit_str(seconds)
    }
}

/// Megabits to one decimal, whole kilobits, or bits.
pub open spec fn bitrate_chars(b: int) -> Seq<char> {
    if b >= 1000000 {
        let tenths = b / 100000;
        dec_str((tenths / 10) as nat) + "."@ + seq![dec_digit(tenths % 10)] + " Mbps"@
    } else if b >= 1000 {
        dec_str((b / 1000) as nat) + " kbps"@
    } else {
        dec_str(b as nat) + " bps"@
    }
}

} // verus!
