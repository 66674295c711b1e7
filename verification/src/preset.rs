//! Voice presets: their identification by name, and the parameter values
//! each one sets.
//!
//! A preset sets the voice (pitch, formant), the compressor, the EQ, the
//! de-esser, the noise gate and the limiter; the first four presets also set
//! the harmonic enhancer and the noise reduction. Device settings are never
//! part of a preset.

use crate::text::{
    all_ascii, ascii_lowercase, chars_of, concat_str, lemma_trim_keeps_ascii, lowercase, push_char,
    str_eq, to_lowercase, trim, trim_str, is_white_space,
};
use vstd::prelude::*;

verus! {

/// A voice preset, by use.
#[derive(Debug, Clone, Copy, PartialEq, Eq, Structural)]
pub enum VoicePreset {
    NeutralClean,
    SoftFeminine,
    BrightFeminine,
    YoungNeutral,
    NaturalLow,
    IkemenSoft,
    IkemenDeep,
    Narrator,
    ClearStreaming,
    RadioVoice,
    BrightHigh,
    DeepCool,
}

/// Every preset, in definition order.
pub open spec fn all_presets() -> Seq<VoicePreset> {
    seq![
        VoicePreset::NeutralClean,
        VoicePreset::SoftFeminine,
        VoicePreset::BrightFeminine,
        VoicePreset::YoungNeutral,
        VoicePreset::NaturalLow,
        VoicePreset::IkemenSoft,
        VoicePreset::IkemenDeep,
        VoicePreset::Narrator,
        VoicePreset::ClearStreaming,
        VoicePreset::RadioVoice,
        VoicePreset::BrightHigh,
        VoicePreset::DeepCool,
    ]
}

/// The snake-case key of a preset, as configuration files write it.
pub open spec fn preset_key(p: VoicePreset) -> Seq<char> {
    match p {
        VoicePreset::NeutralClean => "neutral_clean"@,
        VoicePreset::SoftFeminine => "soft_feminine"@,
        VoicePreset::BrightFeminine => "bright_feminine"@,
        VoicePreset::YoungNeutral => "young_neutral"@,
        VoicePreset::NaturalLow => "natural_low"@,
        VoicePreset::IkemenSoft => "ikemen_soft"@,
        VoicePreset::IkemenDeep => "ikemen_deep"@,
        VoicePreset::Narrator => "narrator"@,
        VoicePreset::ClearStreaming => "clear_streaming"@,
        VoicePreset::RadioVoice => "radio_voice"@,
        VoicePreset::BrightHigh => "bright_high"@,
        VoicePreset::DeepCool => "deep_cool"@,
    }
}

/// The display name of a preset.
pub open spec fn preset_label(p: VoicePreset) -> Seq<char> {
    match p {
        VoicePreset::NeutralClean => "Neutral Clean"@,
        VoicePreset::SoftFeminine => "Soft Feminine"@,
        VoicePreset::BrightFeminine => "Bright Feminine"@,
        VoicePreset::YoungNeutral => "Young Neutral"@,
        VoicePreset::NaturalLow => "Natural Low"@,
        VoicePreset::IkemenSoft => "Ikemen Soft"@,
        VoicePreset::IkemenDeep => "Ikemen Deep"@,
        VoicePreset::Narrator => "Narrator"@,
        VoicePreset::ClearStreaming => "Clear Streaming"@,
        VoicePreset::RadioVoice => "Radio Voice"@,
        VoicePreset::BrightHigh => "Bright High"@,
        VoicePreset::DeepCool => "Deep Cool"@,
    }
}

/// The short description of a preset.
pub open spec fn preset_description(p: VoicePreset) -> Seq<char> {
    match p {
        VoicePreset::NeutralClean => "性別感を薄めた自然で明瞭な声"@,
        VoicePreset::SoftFeminine => "落ち着いた女性寄りの柔らかい声"@,
        VoicePreset::BrightFeminine => "明るい女性寄りの高めの声"@,
        VoicePreset::YoungNeutral => "少年・中性寄りの軽い声"@,
        VoicePreset::NaturalLow => "自然に少し低くする"@,
        VoicePreset::IkemenSoft => "爽やかで柔らかい低音"@,
        VoicePreset::IkemenDeep => "深めで落ち着いた声"@,
        VoicePreset::Narrator => "聞き取りやすいナレーション向け"@,
        VoicePreset::ClearStreaming => "配信向けに明瞭感重視"@,
        VoicePreset::RadioVoice => "ラジオ風の太い声"@,
        VoicePreset::BrightHigh => "明るく軽い高めの声（高音キャラ方向）"@,
        VoicePreset::DeepCool => "低く渋い太めの声（低音キャラ方向）"@,
    }
}

impl VoicePreset {
    /// Every preset, in definition order (the order of the buttons).
    pub fn all() -> (r: [VoicePreset; 12])
        ensures
            r@ == all_presets(),
    {
        let r = [
            VoicePreset::NeutralClean,
            VoicePreset::SoftFeminine,
            VoicePreset::BrightFeminine,
            VoicePreset::YoungNeutral,
            VoicePreset::NaturalLow,
            VoicePreset::IkemenSoft,
            VoicePreset::IkemenDeep,
            VoicePreset::Narrator,
            VoicePreset::ClearStreaming,
            VoicePreset::RadioVoice,
            VoicePreset::BrightHigh,
            VoicePreset::DeepCool,
        ];
        assert(r@ =~= all_presets());
        r
    }

    /// The snake-case key used in configuration files.
    pub fn key(&self) -> (r: &'static str)
        ensures
            r@ == preset_key(*self),
    {
        match self {
            VoicePreset::NeutralClean => "neutral_clean",
            VoicePreset::SoftFeminine => "soft_feminine",
            VoicePreset::BrightFeminine => "bright_feminine",
            VoicePreset::YoungNeutral => "young_neutral",
            VoicePreset::NaturalLow => "natural_low",
            VoicePreset::IkemenSoft => "ikemen_soft",
            VoicePreset::IkemenDeep => "ikemen_deep",
            VoicePreset::Narrator => "narrator",
            VoicePreset::ClearStreaming => "clear_streaming",
            VoicePreset::RadioVoice => "radio_voice",
            VoicePreset::BrightHigh => "bright_high",
            VoicePreset::DeepCool => "deep_cool",
        }
    }

    /// The name shown on screen.
    pub fn label(&self) -> (r: &'static str)
        ensures
            r@ == preset_label(*self),
    {
        match self {
            VoicePreset::NeutralClean => "Neutral Clean",
            VoicePreset::SoftFeminine => "Soft Feminine",
            VoicePreset::BrightFeminine => "Bright Feminine",
            VoicePreset::YoungNeutral => "Young Neutral",
            VoicePreset::NaturalLow => "Natural Low",
            VoicePreset::IkemenSoft => "Ikemen Soft",
            VoicePreset::IkemenDeep => "Ikemen Deep",
            VoicePreset::Narrator => "Narrator",
            VoicePreset::ClearStreaming => "Clear Streaming",
            VoicePreset::RadioVoice => "Radio Voice",
            VoicePreset::BrightHigh => "Bright High",
            VoicePreset::DeepCool => "Deep Cool",
        }
    }

    /// A short description of the preset.
    pub fn description(&self) -> (r: &'static str)
        ensures
            r@ == preset_description(*self),
    {
        match self {
            VoicePreset::NeutralClean => "性別感を薄めた自然で明瞭な声",
            VoicePreset::SoftFeminine => "落ち着いた女性寄りの柔らかい声",
            VoicePreset::BrightFeminine => "明るい女性寄りの高めの声",
            VoicePreset::YoungNeutral => "少年・中性寄りの軽い声",
            VoicePreset::NaturalLow => "自然に少し低くする",
            VoicePreset::IkemenSoft => "爽やかで柔らかい低音",
            VoicePreset::IkemenDeep => "深めで落ち着いた声",
            VoicePreset::Narrator => "聞き取りやすいナレーション向け",
            VoicePreset::ClearStreaming => "配信向けに明瞭感重視",
            VoicePreset::RadioVoice => "ラジオ風の太い声",
            VoicePreset::BrightHigh => "明るく軽い高めの声（高音キャラ方向）",
            VoicePreset::DeepCool => "低く渋い太めの声（低音キャラ方向）",
        }
    }
}

/// `s` with every space and hyphen turned into an underscore.
pub open spec fn underscore_separators(s: Seq<char>) -> Seq<char> {
    s.map_values(|c: char| if c == ' ' || c == '-' { '_' } else { c })
}

/// The key that a preset name stands for: trimmed, lowercased, with spaces
/// and hyphens as underscores.
pub open spec fn name_key(s: Seq<char>) -> Seq<char> {
    underscore_separators(lowercase(trim(s)))
}

/// `name_key` for an ASCII name, where lowercasing is the ASCII mapping.
pub open spec fn ascii_name_key(s: Seq<char>) -> Seq<char> {
    underscore_separators(ascii_lowercase(trim(s)))
}

/// The preset whose key is `k`, if any.
pub open spec fn preset_with_key(k: Seq<char>) -> Option<VoicePreset> {
    if k == "neutral_clean"@ {
        Some(VoicePreset::NeutralClean)
    } else if k == "soft_feminine"@ {
        Some(VoicePreset::SoftFeminine)
    } else if k == "bright_feminine"@ {
        Some(VoicePreset::BrightFeminine)
    } else if k == "young_neutral"@ {
        Some(VoicePreset::YoungNeutral)
    } else if k == "natural_low"@ {
        Some(VoicePreset::NaturalLow)
    } else if k == "ikemen_soft"@ {
        Some(VoicePreset::IkemenSoft)
    } else if k == "ikemen_deep"@ {
        Some(VoicePreset::IkemenDeep)
    } else if k == "narrator"@ {
        Some(VoicePreset::Narrator)
    } else if k == "clear_streaming"@ {
        Some(VoicePreset::ClearStreaming)
    } else if k == "radio_voice"@ {
        Some(VoicePreset::RadioVoice)
    } else if k == "bright_high"@ {
        Some(VoicePreset::BrightHigh)
    } else if k == "deep_cool"@ {
        Some(VoicePreset::DeepCool)
    } else {
        None
    }
}

/// The error text for a name that is no preset; `key` is what it stood for.
pub open spec fn unknown_preset_message(key: Seq<char>) -> Seq<char> {
    "未知のプリセット: "@ + key
}

/// The preset of a parse result, if it succeeded.
pub open spec fn parsed_preset(r: Result<VoicePreset, String>) -> Option<VoicePreset> {
    match r {
        Ok(p) => Some(p),
        Err(_) => None,
    }
}

/// What parsing the preset name `s` gives: the preset whose key the name
/// stands for, or else the error naming that key. For an ASCII name the key
/// is found with the ASCII lowercase mapping.
pub open spec fn parses_as(s: Seq<char>, r: Result<VoicePreset, String>) -> bool {
    &&& preset_with_key(name_key(s)) matches Some(p) ==> r == Ok::<VoicePreset, String>(p)
    &&& preset_with_key(name_key(s)) is None ==> (r matches Err(e) && e@ == unknown_preset_message(
        name_key(s),
    ))
    &&& all_ascii(s) ==> parsed_preset(r) == preset_with_key(ascii_name_key(s))
}

/// `lowered` with every space and hyphen turned into an underscore.
pub fn underscore_separators_str(lowered: &str) -> (r: String)
    ensures
        r@ == underscore_separators(lowered@),
{
    let v = chars_of(lowered);
    let mut r = String::new();
    let mut i: usize = 0;
    while i < v.len()
        invariant
            v@ == lowered@,
            i <= v.len(),
            r@ == underscore_separators(v@.take(i as int)),
        decreases v.len() - i,
    {
        let c = v[i];
        let d = if c == ' ' || c == '-' {
            '_'
        } else {
            c
        };
        push_char(&mut r, d);
        assert(underscore_separators(v@.take(i + 1)) == underscore_separators(v@.take(i as int)).push(d));
        i = i + 1;
    }
    assert(v@.take(v.len() as int) == v@);
    r
}

impl VoicePreset {
    /// The preset whose key is exactly `key`.
    pub fn from_key(key: &str) -> (r: Option<VoicePreset>)
        ensures
            r == preset_with_key(key@),
    {
        if str_eq(key, "neutral_clean") {
            Some(VoicePreset::NeutralClean)
        } else if str_eq(key, "soft_feminine") {
            Some(VoicePreset::SoftFeminine)
        } else if str_eq(key, "bright_feminine") {
            Some(VoicePreset::BrightFeminine)
        } else if str_eq(key, "young_neutral") {
            Some(VoicePreset::YoungNeutral)
        } else if str_eq(key, "natural_low") {
            Some(VoicePreset::NaturalLow)
        } else if str_eq(key, "ikemen_soft") {
            Some(VoicePreset::IkemenSoft)
        } else if str_eq(key, "ikemen_deep") {
            Some(VoicePreset::IkemenDeep)
        } else if str_eq(key, "narrator") {
            Some(VoicePreset::Narrator)
        } else if str_eq(key, "clear_streaming") {
            Some(VoicePreset::ClearStreaming)
        } else if str_eq(key, "radio_voice") {
            Some(VoicePreset::RadioVoice)
        } else if str_eq(key, "bright_high") {
            Some(VoicePreset::BrightHigh)
        } else if str_eq(key, "deep_cool") {
            Some(VoicePreset::DeepCool)
        } else {
            None
        }
    }

    /// The preset that the already lowercased name `lowered` stands for:
    /// spaces and hyphens count as underscores.
    pub fn from_lowered(lowered: &str) -> (r: Result<VoicePreset, String>)
        ensures
            preset_with_key(underscore_separators(lowered@)) matches Some(p) ==> r == Ok::<
                VoicePreset,
                String,
            >(p),
            preset_with_key(underscore_separators(lowered@)) is None ==> (r matches Err(e)
                && e@ == unknown_preset_message(underscore_separators(lowered@))),
    {
        let key = underscore_separators_str(lowered);
        match Self::from_key(key.as_str()) {
            Some(p) => Ok(p),
            None => Err(concat_str("未知のプリセット: ", key.as_str())),
        }
    }

    /// Parses a preset name: surrounding white space is ignored, letter case
    /// does not matter, and spaces or hyphens may stand for underscores, so
    /// that both keys ("ikemen_deep") and display names ("Ikemen Deep") are
    /// accepted. Any other name is an error that names the key it stood for.
    pub fn parse(s: &str) -> (r: Result<VoicePreset, String>)
        ensures
            parses_as(s@, r),
    {
        let trimmed = trim_str(s);
        let lowered = to_lowercase(trimmed.as_str());
        proof {
            if all_ascii(s@) {
                lemma_trim_keeps_ascii(s@);
            }
        }
        Self::from_lowered(lowered.as_str())
    }
}

impl std::str::FromStr for VoicePreset {
    type Err = String;

    fn from_str(s: &str) -> (r: Result<VoicePreset, String>)
        ensures
            parses_as(s@, r),
    {
        VoicePreset::parse(s)
    }
}

/// Every preset is named both by its key and by its display name: trimmed,
/// lowercased and with spaces as underscores, each of them is the key of that
/// very preset. With the ASCII clause of `VoicePreset::parse`, parsing either
/// name gives the preset back.
pub proof fn law_preset_names_parse(p: VoicePreset)
    ensures
        all_ascii(preset_key(p)),
        ascii_name_key(preset_key(p)) == preset_key(p),
        preset_with_key(preset_key(p)) == Some(p),
        preset_with_key(ascii_name_key(preset_key(p))) == Some(p),
        all_ascii(preset_label(p)),
        preset_with_key(ascii_name_key(preset_label(p))) == Some(p),
{
    reveal_strlit("neutral_clean");
    reveal_strlit("soft_feminine");
    reveal_strlit("bright_feminine");
    reveal_strlit("young_neutral");
    reveal_strlit("natural_low");
    reveal_strlit("ikemen_soft");
    reveal_strlit("ikemen_deep");
    reveal_strlit("narrator");
    reveal_strlit("clear_streaming");
    reveal_strlit("radio_voice");
    reveal_strlit("bright_high");
    reveal_strlit("deep_cool");
    match p {
        VoicePreset::NeutralClean => {
            reveal_strlit("Neutral Clean");
            lemma_ascii_name_key_plain(preset_key(p));
            lemma_ascii_name_key_plain(preset_label(p));
            assert(ascii_name_key("Neutral Clean"@) =~= "neutral_clean"@);
            assert(ascii_name_key("neutral_clean"@) =~= "neutral_clean"@);
        },
        VoicePreset::SoftFeminine => {
            reveal_strlit("Soft Feminine");
            lemma_ascii_name_key_plain(preset_key(p));
            lemma_ascii_name_key_plain(preset_label(p));
            assert(ascii_name_key("Soft Feminine"@) =~= "soft_feminine"@);
            assert(ascii_name_key("soft_feminine"@) =~= "soft_feminine"@);
        },
        VoicePreset::BrightFeminine => {
            reveal_strlit("Bright Feminine");
            lemma_ascii_name_key_plain(preset_key(p));
            lemma_ascii_name_key_plain(preset_label(p));
            assert(ascii_name_key("Bright Feminine"@) =~= "bright_feminine"@);
            assert(ascii_name_key("bright_feminine"@) =~= "bright_feminine"@);
        },
        VoicePreset::YoungNeutral => {
            reveal_strlit("Young Neutral");
            lemma_ascii_name_key_plain(preset_key(p));
            lemma_ascii_name_key_plain(preset_label(p));
            assert(ascii_name_key("Young Neutral"@) =~= "young_neutral"@);
            assert(ascii_name_key("young_neutral"@) =~= "young_neutral"@);
        },
        VoicePreset::NaturalLow => {
            reveal_strlit("Natural Low");
            lemma_ascii_name_key_plain(preset_key(p));
            lemma_ascii_name_key_plain(preset_label(p));
            assert(ascii_name_key("Natural Low"@) =~= "natural_low"@);
            assert(ascii_name_key("natural_low"@) =~= "natural_low"@);
        },
        VoicePreset::IkemenSoft => {
            reveal_strlit("Ikemen Soft");
            lemma_ascii_name_key_plain(preset_key(p));
            lemma_ascii_name_key_plain(preset_label(p));
            assert(ascii_name_key("Ikemen Soft"@) =~= "ikemen_soft"@);
            assert(ascii_name_key("ikemen_soft"@) =~= "ikemen_soft"@);
        },
        VoicePreset::IkemenDeep => {
            reveal_strlit("Ikemen Deep");
            lemma_ascii_name_key_plain(preset_key(p));
            lemma_ascii_name_key_plain(preset_label(p));
            assert(ascii_name_key("Ikemen Deep"@) =~= "ikemen_deep"@);
            assert(ascii_name_key("ikemen_deep"@) =~= "ikemen_deep"@);
        },
        VoicePreset::Narrator => {
            reveal_strlit("Narrator");
            lemma_ascii_name_key_plain(preset_key(p));
            lemma_ascii_name_key_plain(preset_label(p));
            assert(ascii_name_key("Narrator"@) =~= "narrator"@);
            assert(ascii_name_key("narrator"@) =~= "narrator"@);
        },
        VoicePreset::ClearStreaming => {
            reveal_strlit("Clear Streaming");
            lemma_ascii_name_key_plain(preset_key(p));
            lemma_ascii_name_key_plain(preset_label(p));
            assert(ascii_name_key("Clear Streaming"@) =~= "clear_streaming"@);
            assert(ascii_name_key("clear_streaming"@) =~= "clear_streaming"@);
        },
        VoicePreset::RadioVoice => {
            reveal_strlit("Radio Voice");
            lemma_ascii_name_key_plain(preset_key(p));
            lemma_ascii_name_key_plain(preset_label(p));
            assert(ascii_name_key("Radio Voice"@) =~= "radio_voice"@);
            assert(ascii_name_key("radio_voice"@) =~= "radio_voice"@);
        },
        VoicePreset::BrightHigh => {
            reveal_strlit("Bright High");
            lemma_ascii_name_key_plain(preset_key(p));
            lemma_ascii_name_key_plain(preset_label(p));
            assert(ascii_name_key("Bright High"@) =~= "bright_high"@);
            assert(ascii_name_key("bright_high"@) =~= "bright_high"@);
        },
        VoicePreset::DeepCool => {
            reveal_strlit("Deep Cool");
            lemma_ascii_name_key_plain(preset_key(p));
            lemma_ascii_name_key_plain(preset_label(p));
            assert(ascii_name_key("Deep Cool"@) =~= "deep_cool"@);
            assert(ascii_name_key("deep_cool"@) =~= "deep_cool"@);
        },
    }
}

/// Different presets have different keys.
pub proof fn law_keys_identify_presets(p: VoicePreset, q: VoicePreset)
    requires
        preset_key(p) == preset_key(q),
    ensures
        p == q,
{
    law_preset_names_parse(p);
    law_preset_names_parse(q);
}

/// `VoicePreset::all` lists every preset, each exactly once.
pub proof fn law_all_lists_each_preset_once(p: VoicePreset)
    ensures
        all_presets().len() == 12,
        all_presets().contains(p),
        forall|i: int, j: int|
            0 <= i < j < all_presets().len() ==> all_presets()[i] != all_presets()[j],
{
    let a = all_presets();
    match p {
        VoicePreset::NeutralClean => assert(a[0] == p),
        VoicePreset::SoftFeminine => assert(a[1] == p),
        VoicePreset::BrightFeminine => assert(a[2] == p),
        VoicePreset::YoungNeutral => assert(a[3] == p),
        VoicePreset::NaturalLow => assert(a[4] == p),
        VoicePreset::IkemenSoft => assert(a[5] == p),
        VoicePreset::IkemenDeep => assert(a[6] == p),
        VoicePreset::Narrator => assert(a[7] == p),
        VoicePreset::ClearStreaming => assert(a[8] == p),
        VoicePreset::RadioVoice => assert(a[9] == p),
        VoicePreset::BrightHigh => assert(a[10] == p),
        VoicePreset::DeepCool => assert(a[11] == p),
    }
}

/// For a name without surrounding white space, `ascii_name_key` is the
/// character-wise mapping.
proof fn lemma_ascii_name_key_plain(s: Seq<char>)
    requires
        s.len() > 0,
        !is_white_space(s[0]),
        !is_white_space(s.last()),
    ensures
        trim(s) == s,
        ascii_name_key(s) == underscore_separators(ascii_lowercase(s)),
{
}

/// A parameter value in hundredths of the unit of its configuration field
/// (`Centi(-120)` is -1.2 dB): every preset value is a decimal with at most
/// two places, so it is held exactly.
#[derive(Debug, Clone, Copy, PartialEq, Eq, Structural)]
pub struct Centi(pub i32);

/// Compressor settings of a preset.
#[derive(Debug, Clone, Copy, PartialEq, Eq, Structural)]
pub struct CompressorParams {
    pub enabled: bool,
    pub threshold_db: Centi,
    pub ratio: Centi,
    pub attack_ms: Centi,
    pub release_ms: Centi,
    pub makeup_gain_db: Centi,
}

/// EQ settings of a preset.
#[derive(Debug, Clone, Copy, PartialEq, Eq, Structural)]
pub struct EqParams {
    pub enabled: bool,
    pub high_pass_hz: Centi,
    pub low_boost_db: Centi,
    pub mud_cut_db: Centi,
    pub presence_boost_db: Centi,
    pub de_esser_db: Centi,
}

/// Noise gate settings of a preset.
#[derive(Debug, Clone, Copy, PartialEq, Eq, Structural)]
pub struct NoiseGateParams {
    pub enabled: bool,
    pub threshold_db: Centi,
    pub attack_ms: Centi,
    pub release_ms: Centi,
}

/// De-esser settings of a preset.
#[derive(Debug, Clone, Copy, PartialEq, Eq, Structural)]
pub struct DeEsserParams {
    pub enabled: bool,
    pub frequency_hz: Centi,
    pub threshold_db: Centi,
    pub ratio: Centi,
    pub max_reduction_db: Centi,
    pub attack_ms: Centi,
    pub release_ms: Centi,
}

/// Limiter settings of a preset.
#[derive(Debug, Clone, Copy, PartialEq, Eq, Structural)]
pub struct LimiterParams {
    pub enabled: bool,
    pub ceiling_db: Centi,
    pub release_ms: Centi,
}

/// Harmonic enhancer settings of a preset.
#[derive(Debug, Clone, Copy, PartialEq, Eq, Structural)]
pub struct HarmonicParams {
    pub enabled: bool,
    pub amount: Centi,
    pub warmth: Centi,
    pub brightness: Centi,
}

/// Everything a preset sets. `harmonic` and `denoise_amount` are `None` for
/// presets that leave those stages as they are; a denoise amount comes with
/// the noise reduction switched on.
#[derive(Debug, Clone, Copy, PartialEq, Eq, Structural)]
pub struct PresetParams {
    pub pitch_semitones: Centi,
    pub formant_shift: Centi,
    pub compressor: CompressorParams,
    pub eq: EqParams,
    pub deesser: DeEsserParams,
    pub harmonic: Option<HarmonicParams>,
    pub noise_gate: NoiseGateParams,
    pub denoise_amount: Option<Centi>,
    pub limiter: LimiterParams,
}

/// An enabled compressor.
pub open spec fn compressor(
    threshold_db: i32,
    ratio: i32,
    attack_ms: i32,
    release_ms: i32,
    makeup_gain_db: i32,
) -> CompressorParams {
    CompressorParams {
        enabled: true,
        threshold_db: Centi(threshold_db),
        ratio: Centi(ratio),
        attack_ms: Centi(attack_ms),
        release_ms: Centi(release_ms),
        makeup_gain_db: Centi(makeup_gain_db),
    }
}

/// An enabled EQ.
pub open spec fn equalizer(
    high_pass_hz: i32,
    low_boost_db: i32,
    mud_cut_db: i32,
    presence_boost_db: i32,
    de_esser_db: i32,
) -> EqParams {
    EqParams {
        enabled: true,
        high_pass_hz: Centi(high_pass_hz),
        low_boost_db: Centi(low_boost_db),
        mud_cut_db: Centi(mud_cut_db),
        presence_boost_db: Centi(presence_boost_db),
        de_esser_db: Centi(de_esser_db),
    }
}

/// An enabled noise gate with 5 ms attack and 80 ms release.
pub open spec fn gate(threshold_db: i32) -> NoiseGateParams {
    NoiseGateParams {
        enabled: true,
        threshold_db: Centi(threshold_db),
        attack_ms: Centi(500),
        release_ms: Centi(8000),
    }
}

/// An enabled de-esser with 2 ms attack and 55 ms release.
pub open spec fn deesser(frequency_hz: i32, threshold_db: i32, ratio: i32, max_reduction_db: i32) -> DeEsserParams {
    DeEsserParams {
        enabled: true,
        frequency_hz: Centi(frequency_hz),
        threshold_db: Centi(threshold_db),
        ratio: Centi(ratio),
        max_reduction_db: Centi(max_reduction_db),
        attack_ms: Centi(200),
        release_ms: Centi(5500),
    }
}

/// An enabled limiter.
pub open spec fn limiter(ceiling_db: i32, release_ms: i32) -> LimiterParams {
    LimiterParams { enabled: true, ceiling_db: Centi(ceiling_db), release_ms: Centi(release_ms) }
}

/// An enabled harmonic enhancer.
pub open spec fn harmonic(amount: i32, warmth: i32, brightness: i32) -> HarmonicParams {
    HarmonicParams {
        enabled: true,
        amount: Centi(amount),
        warmth: Centi(warmth),
        brightness: Centi(brightness),
    }
}

/// The values each preset sets.
pub open spec fn preset_params(p: VoicePreset) -> PresetParams {
    match p {
        VoicePreset::NeutralClean => PresetParams {
            pitch_semitones: Centi(250i32),
            formant_shift: Centi(70i32),
            compressor: compressor(-2000i32, 250i32, 600i32, 10000i32, 250i32),
            eq: equalizer(10000i32, -50i32, -250i32, 250i32, -250i32),
            deesser: deesser(610000i32, -2900i32, 250i32, 600i32),
            harmonic: Some(harmonic(25i32, 60i32, 50i32)),
            noise_gate: gate(-4600i32),
            denoise_amount: Some(Centi(35i32)),
            limiter: limiter(-120i32, 4500i32),
        },
        VoicePreset::SoftFeminine => PresetParams {
            pitch_semitones: Centi(500i32),
            formant_shift: Centi(120i32),
            compressor: compressor(-1900i32, 280i32, 500i32, 9500i32, 250i32),
            eq: equalizer(11500i32, -150i32, -300i32, 280i32, -300i32),
            deesser: deesser(590000i32, -3100i32, 350i32, 900i32),
            harmonic: Some(harmonic(32i32, 70i32, 50i32)),
            noise_gate: gate(-4700i32),
            denoise_amount: Some(Centi(40i32)),
            limiter: limiter(-150i32, 4200i32),
        },
        VoicePreset::BrightFeminine => PresetParams {
            pitch_semitones: Centi(700i32),
            formant_shift: Centi(160i32),
            compressor: compressor(-2000i32, 260i32, 400i32, 8500i32, 200i32),
            eq: equalizer(13000i32, -200i32, -350i32, 360i32, -350i32),
            deesser: deesser(570000i32, -3300i32, 400i32, 1100i32),
            harmonic: Some(harmonic(40i32, 70i32, 60i32)),
            noise_gate: gate(-4800i32),
            denoise_amount: Some(Centi(45i32)),
            limiter: limiter(-180i32, 3800i32),
        },
        VoicePreset::YoungNeutral => PresetParams {
            pitch_semitones: Centi(400i32),
            formant_shift: Centi(90i32),
            compressor: compressor(-2000i32, 240i32, 500i32, 9500i32, 200i32),
            eq: equalizer(11000i32, -100i32, -250i32, 260i32, -280i32),
            deesser: deesser(600000i32, -3000i32, 300i32, 800i32),
            harmonic: Some(harmonic(28i32, 65i32, 50i32)),
            noise_gate: gate(-4700i32),
            denoise_amount: Some(Centi(38i32)),
            limiter: limiter(-150i32, 4200i32),
        },
        VoicePreset::NaturalLow => PresetParams {
            pitch_semitones: Centi(-200i32),
            formant_shift: Centi(-50i32),
            compressor: compressor(-2000i32, 200i32, 1200i32, 15000i32, 200i32),
            eq: equalizer(8000i32, 0i32, -100i32, 100i32, -200i32),
            deesser: deesser(650000i32, -2700i32, 200i32, 500i32),
            harmonic: None,
            noise_gate: gate(-4800i32),
            denoise_amount: None,
            limiter: limiter(-100i32, 6000i32),
        },
        VoicePreset::IkemenSoft => PresetParams {
            pitch_semitones: Centi(-300i32),
            formant_shift: Centi(-80i32),
            compressor: compressor(-1800i32, 300i32, 800i32, 12000i32, 300i32),
            eq: equalizer(8000i32, 150i32, -200i32, 150i32, -250i32),
            deesser: deesser(640000i32, -2800i32, 240i32, 600i32),
            harmonic: None,
            noise_gate: gate(-4500i32),
            denoise_amount: None,
            limiter: limiter(-100i32, 5000i32),
        },
        VoicePreset::IkemenDeep => PresetParams {
            pitch_semitones: Centi(-400i32),
            formant_shift: Centi(-120i32),
            compressor: compressor(-1800i32, 300i32, 800i32, 12000i32, 300i32),
            eq: equalizer(7500i32, 200i32, -200i32, 100i32, -200i32),
            deesser: deesser(660000i32, -2700i32, 200i32, 500i32),
            harmonic: None,
            noise_gate: gate(-4500i32),
            denoise_amount: None,
            limiter: limiter(-100i32, 6000i32),
        },
        VoicePreset::Narrator => PresetParams {
            pitch_semitones: Centi(-200i32),
            formant_shift: Centi(-60i32),
            compressor: compressor(-1600i32, 400i32, 600i32, 10000i32, 400i32),
            eq: equalizer(9000i32, 50i32, -150i32, 250i32, -300i32),
            deesser: deesser(620000i32, -2900i32, 300i32, 700i32),
            harmonic: None,
            noise_gate: gate(-4500i32),
            denoise_amount: None,
            limiter: limiter(-150i32, 4000i32),
        },
        VoicePreset::ClearStreaming => PresetParams {
            pitch_semitones: Centi(-100i32),
            formant_shift: Centi(-30i32),
            compressor: compressor(-1800i32, 300i32, 800i32, 12000i32, 300i32),
            eq: equalizer(9000i32, 0i32, -100i32, 300i32, -350i32),
            deesser: deesser(600000i32, -3000i32, 320i32, 800i32),
            harmonic: None,
            noise_gate: gate(-4000i32),
            denoise_amount: None,
            limiter: limiter(-100i32, 5000i32),
        },
        VoicePreset::RadioVoice => PresetParams {
            pitch_semitones: Centi(-300i32),
            formant_shift: Centi(-100i32),
            compressor: compressor(-1600i32, 400i32, 600i32, 10000i32, 500i32),
            eq: equalizer(7000i32, 300i32, -150i32, 50i32, -400i32),
            deesser: deesser(670000i32, -2600i32, 200i32, 500i32),
            harmonic: None,
            noise_gate: gate(-4500i32),
            denoise_amount: None,
            limiter: limiter(-100i32, 6000i32),
        },
        VoicePreset::BrightHigh => PresetParams {
            pitch_semitones: Centi(600i32),
            formant_shift: Centi(200i32),
            compressor: compressor(-1800i32, 300i32, 800i32, 12000i32, 300i32),
            eq: equalizer(12000i32, -100i32, -200i32, 350i32, -300i32),
            deesser: deesser(580000i32, -3200i32, 360i32, 1000i32),
            harmonic: None,
            noise_gate: gate(-4500i32),
            denoise_amount: None,
            limiter: limiter(-100i32, 5000i32),
        },
        VoicePreset::DeepCool => PresetParams {
            pitch_semitones: Centi(-600i32),
            formant_shift: Centi(-200i32),
            compressor: compressor(-1600i32, 400i32, 600i32, 11000i32, 400i32),
            eq: equalizer(7000i32, 300i32, -150i32, 100i32, -200i32),
            deesser: deesser(680000i32, -2600i32, 200i32, 500i32),
            harmonic: None,
            noise_gate: gate(-4500i32),
            denoise_amount: None,
            limiter: limiter(-100i32, 6000i32),
        },
    }
}

fn make_compressor(
    threshold_db: i32,
    ratio: i32,
    attack_ms: i32,
    release_ms: i32,
    makeup_gain_db: i32,
) -> (r: CompressorParams)
    ensures
        r == compressor(threshold_db, ratio, attack_ms, release_ms, makeup_gain_db),
{
    CompressorParams {
        enabled: true,
        threshold_db: Centi(threshold_db),
        ratio: Centi(ratio),
        attack_ms: Centi(attack_ms),
        release_ms: Centi(release_ms),
        makeup_gain_db: Centi(makeup_gain_db),
    }
}

fn make_equalizer(
    high_pass_hz: i32,
    low_boost_db: i32,
    mud_cut_db: i32,
    presence_boost_db: i32,
    de_esser_db: i32,
) -> (r: EqParams)
    ensures
        r == equalizer(high_pass_hz, low_boost_db, mud_cut_db, presence_boost_db, de_esser_db),
{
    EqParams {
        enabled: true,
        high_pass_hz: Centi(high_pass_hz),
        low_boost_db: Centi(low_boost_db),
        mud_cut_db: Centi(mud_cut_db),
        presence_boost_db: Centi(presence_boost_db),
        de_esser_db: Centi(de_esser_db),
    }
}

fn make_gate(threshold_db: i32) -> (r: NoiseGateParams)
    ensures
        r == gate(threshold_db),
{
    NoiseGateParams {
        enabled: true,
        threshold_db: Centi(threshold_db),
        attack_ms: Centi(500),
        release_ms: Centi(8000),
    }
}

fn make_deesser(frequency_hz: i32, threshold_db: i32, ratio: i32, max_reduction_db: i32) -> (r: DeEsserParams)
    ensures
        r == deesser(frequency_hz, threshold_db, ratio, max_reduction_db),
{
    DeEsserParams {
        enabled: true,
        frequency_hz: Centi(frequency_hz),
        threshold_db: Centi(threshold_db),
        ratio: Centi(ratio),
        max_reduction_db: Centi(max_reduction_db),
        attack_ms: Centi(200),
        release_ms: Centi(5500),
    }
}

fn make_limiter(ceiling_db: i32, release_ms: i32) -> (r: LimiterParams)
    ensures
        r == limiter(ceiling_db, release_ms),
{
    LimiterParams { enabled: true, ceiling_db: Centi(ceiling_db), release_ms: Centi(release_ms) }
}

fn make_harmonic(amount: i32, warmth: i32, brightness: i32) -> (r: HarmonicParams)
    ensures
        r == harmonic(amount, warmth, brightness),
{
    HarmonicParams {
        enabled: true,
        amount: Centi(amount),
        warmth: Centi(warmth),
        brightness: Centi(brightness),
    }
}

/// Presets as parameter sets.
pub struct PresetManager;

impl PresetManager {
    /// The values that `preset` sets. Loading a preset starts from the default
    /// configuration, records the preset's key and applies these values;
    /// applying it to an existing configuration sets the same values and
    /// leaves everything else (devices above all) as it was.
    pub fn params(preset: VoicePreset) -> (r: PresetParams)
        ensures
            r == preset_params(preset),
    {
        match preset {
        VoicePreset::NeutralClean => PresetParams {
            pitch_semitones: Centi(250),
            formant_shift: Centi(70),
            compressor: make_compressor(-2000, 250, 600, 10000, 250),
            eq: make_equalizer(10000, -50, -250, 250, -250),
            deesser: make_deesser(610000, -2900, 250, 600),
            harmonic: Some(make_harmonic(25, 60, 50)),
            noise_gate: make_gate(-4600),
            denoise_amount: Some(Centi(35)),
            limiter: make_limiter(-120, 4500),
        },
        VoicePreset::SoftFeminine => PresetParams {
            pitch_semitones: Centi(500),
            formant_shift: Centi(120),
            compressor: make_compressor(-1900, 280, 500, 9500, 250),
            eq: make_equalizer(11500, -150, -300, 280, -300),
            deesser: make_deesser(590000, -3100, 350, 900),
            harmonic: Some(make_harmonic(32, 70, 50)),
            noise_gate: make_gate(-4700),
            denoise_amount: Some(Centi(40)),
            limiter: make_limiter(-150, 4200),
        },
        VoicePreset::BrightFeminine => PresetParams {
            pitch_semitones: Centi(700),
            formant_shift: Centi(160),
            compressor: make_compressor(-2000, 260, 400, 8500, 200),
            eq: make_equalizer(13000, -200, -350, 360, -350),
            deesser: make_deesser(570000, -3300, 400, 1100),
            harmonic: Some(make_harmonic(40, 70, 60)),
            noise_gate: make_gate(-4800),
            denoise_amount: Some(Centi(45)),
            limiter: make_limiter(-180, 3800),
        },
        VoicePreset::YoungNeutral => PresetParams {
            pitch_semitones: Centi(400),
            formant_shift: Centi(90),
            compressor: make_compressor(-2000, 240, 500, 9500, 200),
            eq: make_equalizer(11000, -100, -250, 260, -280),
            deesser: make_deesser(600000, -3000, 300, 800),
            harmonic: Some(make_harmonic(28, 65, 50)),
            noise_gate: make_gate(-4700),
            denoise_amount: Some(Centi(38)),
            limiter: make_limiter(-150, 4200),
        },
        VoicePreset::NaturalLow => PresetParams {
            pitch_semitones: Centi(-200),
            formant_shift: Centi(-50),
            compressor: make_compressor(-2000, 200, 1200, 15000, 200),
            eq: make_equalizer(8000, 0, -100, 100, -200),
            deesser: make_deesser(650000, -2700, 200, 500),
            harmonic: None,
            noise_gate: make_gate(-4800),
            denoise_amount: None,
            limiter: make_limiter(-100, 6000),
        },
        VoicePreset::IkemenSoft => PresetParams {
            pitch_semitones: Centi(-300),
            formant_shift: Centi(-80),
            compressor: make_compressor(-1800, 300, 800, 12000, 300),
            eq: make_equalizer(8000, 150, -200, 150, -250),
            deesser: make_deesser(640000, -2800, 240, 600),
            harmonic: None,
            noise_gate: make_gate(-4500),
            denoise_amount: None,
            limiter: make_limiter(-100, 5000),
        },
        VoicePreset::IkemenDeep => PresetParams {
            pitch_semitones: Centi(-400),
            formant_shift: Centi(-120),
            compressor: make_compressor(-1800, 300, 800, 12000, 300),
            eq: make_equalizer(7500, 200, -200, 100, -200),
            deesser: make_deesser(660000, -2700, 200, 500),
            harmonic: None,
            noise_gate: make_gate(-4500),
            denoise_amount: None,
            limiter: make_limiter(-100, 6000),
        },
        VoicePreset::Narrator => PresetParams {
            pitch_semitones: Centi(-200),
            formant_shift: Centi(-60),
            compressor: make_compressor(-1600, 400, 600, 10000, 400),
            eq: make_equalizer(9000, 50, -150, 250, -300),
            deesser: make_deesser(620000, -2900, 300, 700),
            harmonic: None,
            noise_gate: make_gate(-4500),
            denoise_amount: None,
            limiter: make_limiter(-150, 4000),
        },
        VoicePreset::ClearStreaming => PresetParams {
            pitch_semitones: Centi(-100),
            formant_shift: Centi(-30),
            compressor: make_compressor(-1800, 300, 800, 12000, 300),
            eq: make_equalizer(9000, 0, -100, 300, -350),
            deesser: make_deesser(600000, -3000, 320, 800),
            harmonic: None,
            noise_gate: make_gate(-4000),
            denoise_amount: None,
            limiter: make_limiter(-100, 5000),
        },
        VoicePreset::RadioVoice => PresetParams {
            pitch_semitones: Centi(-300),
            formant_shift: Centi(-100),
            compressor: make_compressor(-1600, 400, 600, 10000, 500),
            eq: make_equalizer(7000, 300, -150, 50, -400),
            deesser: make_deesser(670000, -2600, 200, 500),
            harmonic: None,
            noise_gate: make_gate(-4500),
            denoise_amount: None,
            limiter: make_limiter(-100, 6000),
        },
        VoicePreset::BrightHigh => PresetParams {
            pitch_semitones: Centi(600),
            formant_shift: Centi(200),
            compressor: make_compressor(-1800, 300, 800, 12000, 300),
            eq: make_equalizer(12000, -100, -200, 350, -300),
            deesser: make_deesser(580000, -3200, 360, 1000),
            harmonic: None,
            noise_gate: make_gate(-4500),
            denoise_amount: None,
            limiter: make_limiter(-100, 5000),
        },
        VoicePreset::DeepCool => PresetParams {
            pitch_semitones: Centi(-600),
            formant_shift: Centi(-200),
            compressor: make_compressor(-1600, 400, 600, 11000, 400),
            eq: make_equalizer(7000, 300, -150, 100, -200),
            deesser: make_deesser(680000, -2600, 200, 500),
            harmonic: None,
            noise_gate: make_gate(-4500),
            denoise_amount: None,
            limiter: make_limiter(-100, 6000),
        },
        }
    }
}

/// Every preset keeps the output safe: the limiter is on with its ceiling
/// below full scale, and the compressor, EQ, de-esser and noise gate are on,
/// with compression and de-essing ratios of at least 1:1.
pub proof fn law_presets_keep_output_safe(p: VoicePreset)
    ensures
        preset_params(p).limiter.enabled,
        preset_params(p).limiter.ceiling_db.0 < 0,
        preset_params(p).compressor.enabled,
        preset_params(p).compressor.ratio.0 >= 100,
        preset_params(p).eq.enabled,
        preset_params(p).deesser.enabled,
        preset_params(p).deesser.ratio.0 >= 100,
        preset_params(p).noise_gate.enabled,
{
}

/// Formant follows pitch: a preset that raises the voice also makes it
/// brighter, one that lowers it makes it thicker, and the formant moves less
/// than the pitch.
pub proof fn law_formant_follows_pitch(p: VoicePreset)
    ensures
        preset_params(p).pitch_semitones.0 > 0 ==> 0 < preset_params(p).formant_shift.0
            < preset_params(p).pitch_semitones.0,
        preset_params(p).pitch_semitones.0 < 0 ==> preset_params(p).pitch_semitones.0
            < preset_params(p).formant_shift.0 < 0,
{
}

} // verus!
