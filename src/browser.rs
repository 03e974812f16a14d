//! Which recording formats a browser records, judged from its user agent.

use vstd::prelude::*;

use crate::bytes::{chars_contain, str_contains};
use crate::format::{lower_of, lowercase, priority_of, AudioFormat};

verus! {

/// Formats a browser with the (lower-cased) user agent `ua` can record.
pub open spec fn supported_for(ua: Seq<char>) -> Seq<AudioFormat> {
    if chars_contain(ua, "chrome"@) || chars_contain(ua, "edge"@) {
        seq![AudioFormat::WebmOpus, AudioFormat::Wav]
    } else if chars_contain(ua, "firefox"@) {
        seq![AudioFormat::OggOpus, AudioFormat::Wav]
    } else if chars_contain(ua, "safari"@) {
        seq![AudioFormat::Mp4Aac, AudioFormat::Wav]
    } else {
        seq![AudioFormat::Wav]
    }
}

/// `r` is an element of `s` of lowest processing priority.
pub open spec fn is_preferred_in(r: AudioFormat, s: Seq<AudioFormat>) -> bool {
    s.contains(r) && forall|i: int| 0 <= i < s.len() ==> priority_of(r) <= priority_of(#[trigger] s[i])
}

/// Browser capability tables.
pub struct BrowserCompatibility;

impl BrowserCompatibility {
    /// Formats the browser identified by `user_agent` can record (case is
    /// ignored).
    pub fn get_supported_formats(user_agent: &str) -> (r: Vec<AudioFormat>)
        ensures
            r@ == supported_for(lower_of(user_agent@)),
    {
        let lowered = lowercase(user_agent);
        Self::supported_formats_for_lowercase(lowered.as_str())
    }

    /// Formats for an already lower-cased user agent.
    pub fn supported_formats_for_lowercase(ua: &str) -> (r: Vec<AudioFormat>)
        ensures
            r@ == supported_for(ua@),
    {
        if str_contains(ua, "chrome") || str_contains(ua, "edge") {
            vec![AudioFormat::WebmOpus, AudioFormat::Wav]
        } else if str_contains(ua, "firefox") {
            vec![AudioFormat::OggOpus, AudioFormat::Wav]
        } else if str_contains(ua, "safari") {
            vec![AudioFormat::Mp4Aac, AudioFormat::Wav]
        } else {
            vec![AudioFormat::Wav]
        }
    }

    /// Can the browser identified by `user_agent` record `format`?
    pub fn is_format_supported(format: &AudioFormat, user_agent: &str) -> (r: bool)
        ensures
            r == supported_for(lower_of(user_agent@)).contains(*format),
    {
        let supported = Self::get_supported_formats(user_agent);
        let mut i: usize = 0;
        while i < supported.len()
            invariant
                i <= supported@.len(),
                supported@ == supported_for(lower_of(user_agent@)),
                forall|k: int| 0 <= k < i ==> supported@[k] != *format,
            decreases supported@.len() - i,
        {
            if supported[i] == *format {
                assert(supported@[i as int] == *format);
                return true;
            }
            i += 1;
        }
        false
    }

    /// The preferred recording format of the browser identified by
    /// `user_agent`: the supported format of lowest processing priority.
    pub fn get_recommended_format(user_agent: &str) -> (r: AudioFormat)
        ensures
            is_preferred_in(r, supported_for(lower_of(user_agent@))),
    {
        let supported = Self::get_supported_formats(user_agent);
        assert(supported@.len() > 0);
        let mut best = supported[0];
        let mut i: usize = 1;
        while i < supported.len()
            invariant
                1 <= i <= supported@.len(),
                supported@ == supported_for(lower_of(user_agent@)),
                supported@.contains(best),
                forall|k: int| 0 <= k < i ==> priority_of(best) <= priority_of(#[trigger] supported@[k]),
            decreases supported@.len() - i,
        {
            let cand = supported[i];
            if cand.processing_priority() < best.processing_priority() {
                best = cand;
            }
            i += 1;
        }
        best
    }
}

} // verus!
