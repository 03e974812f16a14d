//! Transcription quality tiers and how a tier is chosen for a request.

use vstd::prelude::*;

verus! {

/// Quality tiers, fastest first; each maps to its own model file.
#[derive(Debug, Clone, Copy, PartialEq, Eq, Hash, Structural)]
pub enum TranscriptionQuality {
    Turbo,
    Balanced,
    Medium,
    HighAccuracy,
    Premium,
}

/// Samples per millisecond at the pipeline's 16 kHz rate.
pub const SAMPLES_PER_MS: usize = 16;

pub open spec fn model_name_of(q: TranscriptionQuality) -> Seq<char> {
    match q {
        TranscriptionQuality::Turbo => "ggml-tiny.bin"@,
        TranscriptionQuality::Balanced => "ggml-base.bin"@,
        TranscriptionQuality::Medium => "ggml-medium.bin"@,
        TranscriptionQuality::HighAccuracy => "ggml-large-v2.bin"@,
        TranscriptionQuality::Premium => "ggml-large-v3.bin"@,
    }
}

pub open spec fn latency_of(q: TranscriptionQuality) -> u64 {
    match q {
        TranscriptionQuality::Turbo => 50,
        TranscriptionQuality::Balanced => 100,
        TranscriptionQuality::Medium => 150,
        TranscriptionQuality::HighAccuracy => 200,
        TranscriptionQuality::Premium => 250,
    }
}

/// Duration in milliseconds of `samples` samples at 16 kHz, rounded down.
pub open spec fn duration_ms(samples: nat) -> nat {
    samples / 16
}

/// The tier picked for a request with an optional latency target.
pub open spec fn adaptive_tier(samples: nat, target_latency_ms: Option<u64>) -> TranscriptionQuality {
    match target_latency_ms {
        Some(t) => if t <= 100 {
            TranscriptionQuality::Turbo
        } else if t <= 200 {
            TranscriptionQuality::Medium
        } else {
            TranscriptionQuality::Premium
        },
        None => if duration_ms(samples) <= 5000 {
            TranscriptionQuality::Turbo
        } else if duration_ms(samples) <= 30000 {
            TranscriptionQuality::Medium
        } else {
            TranscriptionQuality::Premium
        },
    }
}

/// The tier picked for a Chinese-language request.
pub open spec fn chinese_tier(samples: nat, is_taiwanese: bool) -> TranscriptionQuality {
    if is_taiwanese {
        TranscriptionQuality::Premium
    } else if duration_ms(samples) <= 10000 {
        TranscriptionQuality::Medium
    } else {
        TranscriptionQuality::Premium
    }
}

impl TranscriptionQuality {
    /// File name of the model that serves this tier.
    pub fn model_name(&self) -> (r: &'static str)
        ensures
            r@ == model_name_of(*self),
    {
        match self {
            TranscriptionQuality::Turbo => "ggml-tiny.bin",
            TranscriptionQuality::Balanced => "ggml-base.bin",
            TranscriptionQuality::Medium => "ggml-medium.bin",
            TranscriptionQuality::HighAccuracy => "ggml-large-v2.bin",
            TranscriptionQuality::Premium => "ggml-large-v3.bin",
        }
    }

    /// Latency target of this tier, in milliseconds.
    pub fn target_latency_ms(&self) -> (r: u64)
        ensures
            r == latency_of(*self),
    {
        match self {
            TranscriptionQuality::Turbo => 50,
            TranscriptionQuality::Balanced => 100,
            TranscriptionQuality::Medium => 150,
            TranscriptionQuality::HighAccuracy => 200,
            TranscriptionQuality::Premium => 250,
        }
    }

    /// Is this tier tuned for Chinese speech?
    pub fn is_chinese_optimized(&self) -> (r: bool)
        ensures
            r == (*self == TranscriptionQuality::Medium || *self == TranscriptionQuality::Premium),
    {
        matches!(self, TranscriptionQuality::Medium | TranscriptionQuality::Premium)
    }

    /// Can this tier transcribe Taiwanese?
    pub fn is_taiwanese_capable(&self) -> (r: bool)
        ensures
            r == (*self == TranscriptionQuality::Premium),
    {
        matches!(self, TranscriptionQuality::Premium)
    }

    /// The tier for `sample_count` samples at 16 kHz: by the latency target
    /// when one is given, else by the audio's duration.
    pub fn adaptive(sample_count: usize, target_latency_ms: Option<u64>) -> (r: TranscriptionQuality)
        ensures
            r == adaptive_tier(sample_count as nat, target_latency_ms),
    {
        match target_latency_ms {
            Some(t) => {
                if t <= 100 {
                    TranscriptionQuality::Turbo
                } else if t <= 200 {
                    TranscriptionQuality::Medium
                } else {
                    TranscriptionQuality::Premium
                }
            },
            None => {
                let ms = sample_count / SAMPLES_PER_MS;
                if ms <= 5000 {
                    TranscriptionQuality::Turbo
                } else if ms <= 30000 {
                    TranscriptionQuality::Medium
                } else {
                    TranscriptionQuality::Premium
                }
            },
        }
    }

    /// The tier for a Chinese-language request of `sample_count` samples.
    pub fn for_chinese(sample_count: usize, is_taiwanese: bool) -> (r: TranscriptionQuality)
        ensures
            r == chinese_tier(sample_count as nat, is_taiwanese),
    {
        if is_taiwanese {
            TranscriptionQuality::Premium
        } else if sample_count / SAMPLES_PER_MS <= 10000 {
            TranscriptionQuality::Medium
        } else {
            TranscriptionQuality::Premium
        }
    }
}

} // verus!
