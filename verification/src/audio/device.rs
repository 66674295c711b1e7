//! Device selection: ordering device lists, resolving the device a
//! configuration names, and the text shown for devices.
//!
//! The enumeration itself belongs to the audio host; the functions here take
//! the names it reported.

use crate::text::{
    chars_of, concat_str, decimal, eq_ignore_ascii_case, eq_ignore_ascii_case_str, push_char,
    push_decimal, str_eq, string_from_range, string_views,
};
use vstd::prelude::*;

verus! {

/// What is known of one audio device.
#[derive(Debug, Clone)]
pub struct AudioDeviceInfo {
    pub name: String,
    pub is_default: bool,
    pub channels: u16,
    pub sample_rates: Vec<u32>,
}

/// Which device a configured name selects among the listed ones.
#[derive(Debug, Clone, Copy, PartialEq, Eq, Structural)]
pub enum DeviceChoice {
    /// The host's default device.
    SystemDefault,
    /// The listed device at this position.
    Listed(usize),
}

/// `names` without the entries equal to `d`, in order.
pub open spec fn without(names: Seq<Seq<char>>, d: Seq<char>) -> Seq<Seq<char>>
    decreases names.len(),
{
    if names.len() == 0 {
        seq![]
    } else {
        let rest = without(names.drop_last(), d);
        if names.last() == d {
            rest
        } else {
            rest.push(names.last())
        }
    }
}

/// The device list as shown: the default device first, then the others in
/// the order the host gave them, the default not repeated.
pub open spec fn default_first(names: Seq<Seq<char>>, default: Option<Seq<char>>) -> Seq<Seq<char>> {
    match default {
        Some(d) => seq![d] + without(names, d),
        None => names,
    }
}

/// Whether a configured device name means the host's default device.
pub open spec fn means_default(want: Seq<char>) -> bool {
    want.len() == 0 || eq_ignore_ascii_case(want, "default"@)
}

/// Whether `want` is among `names`.
pub open spec fn listed(names: Seq<Seq<char>>, want: Seq<char>) -> bool {
    exists|i: int| 0 <= i < names.len() && names[i] == want
}

/// The device name the GUI selects for a configured name: the name itself
/// when it is a real, listed device; else the first listed device; else
/// "default".
pub open spec fn picked_device(want: Seq<char>, list: Seq<Seq<char>>) -> Seq<char> {
    if !means_default(want) && listed(list, want) {
        want
    } else if list.len() > 0 {
        list[0]
    } else {
        "default"@
    }
}

/// A device name shortened for display: names of more than 34 characters
/// keep their first 33 and end in an ellipsis.
pub open spec fn shortened(name: Seq<char>) -> Seq<char> {
    if name.len() > 34 {
        name.take(33).push('…')
    } else {
        name
    }
}

/// The sample-rate part of a device line.
pub open spec fn rate_text(rates: Seq<u32>) -> Seq<char> {
    if rates.len() > 0 {
        decimal(rates[0] as nat) + "Hz"@
    } else {
        "?"@
    }
}

/// The line that lists a device.
pub open spec fn device_line_text(d: AudioDeviceInfo) -> Seq<char> {
    "  - "@ + d.name@ + (if d.is_default {
        " [default]"@
    } else {
        ""@
    }) + "  (ch:"@ + decimal(d.channels as nat) + ", "@ + rate_text(d.sample_rates@) + ")"@
}

/// The lines of one section of the device listing.
pub open spec fn section_lines(header: Seq<char>, infos: Seq<AudioDeviceInfo>) -> Seq<Seq<char>> {
    seq![header] + (if infos.len() == 0 {
        seq!["  (見つかりません)"@]
    } else {
        seq![]
    }) + infos.map_values(|d: AudioDeviceInfo| device_line_text(d))
}

/// The device listing: inputs, a blank line, outputs.
pub open spec fn listing_lines(inputs: Seq<AudioDeviceInfo>, outputs: Seq<AudioDeviceInfo>) -> Seq<
    Seq<char>,
> {
    section_lines("=== 入力デバイス ==="@, inputs) + seq![""@] + section_lines(
        "=== 出力デバイス ==="@,
        outputs,
    )
}

/// The device the GUI selects is a listed one whenever there is any.
pub proof fn law_picked_device_is_listed(want: Seq<char>, list: Seq<Seq<char>>)
    requires
        list.len() > 0,
    ensures
        listed(list, picked_device(want, list)),
{
    if !(!means_default(want) && listed(list, want)) {
        assert(list[0] == picked_device(want, list));
    }
}

/// A shortened name is never longer than 34 characters, and it keeps the
/// beginning of the name.
pub proof fn law_shortened_fits(name: Seq<char>)
    ensures
        shortened(name).len() <= 34,
        name.len() <= 34 ==> shortened(name) == name,
        name.len() > 34 ==> shortened(name).take(33) == name.take(33),
{
    if name.len() > 34 {
        assert(shortened(name).take(33) =~= name.take(33));
    }
}

/// `without` removes exactly the entries equal to `d`: none is left, every
/// other entry stays, and nothing new comes in.
proof fn lemma_without(names: Seq<Seq<char>>, d: Seq<char>)
    ensures
        forall|i: int| 0 <= i < without(names, d).len() ==> #[trigger] without(names, d)[i] != d,
        forall|k: int|
            0 <= k < names.len() && names[k] != d ==> without(names, d).contains(#[trigger] names[k]),
        forall|i: int|
            0 <= i < without(names, d).len() ==> names.contains(#[trigger] without(names, d)[i]),
    decreases names.len(),
{
    if names.len() > 0 {
        let init = names.drop_last();
        lemma_without(init, d);
        let w = without(names, d);
        let wi = without(init, d);
        assert forall|k: int| 0 <= k < names.len() && names[k] != d implies w.contains(
            #[trigger] names[k],
        ) by {
            if k < names.len() - 1 {
                assert(init[k] == names[k]);
                assert(wi.contains(init[k]));
                let j = choose|j: int| 0 <= j < wi.len() && wi[j] == init[k];
                assert(w[j] == wi[j]);
            } else {
                assert(w[wi.len() as int] == names.last());
            }
        }
        assert forall|i: int| 0 <= i < w.len() implies names.contains(#[trigger] w[i]) by {
            if i < wi.len() {
                assert(w[i] == wi[i]);
                assert(init.contains(wi[i]));
                let j = choose|j: int| 0 <= j < init.len() && init[j] == wi[i];
                assert(names[j] == init[j]);
            } else {
                assert(names[names.len() - 1] == names.last());
            }
        }
    }
}

/// The device list shows the default device first and only there; every
/// device the host listed is shown, and nothing else.
pub proof fn law_default_device_first(names: Seq<Seq<char>>, default: Option<Seq<char>>)
    ensures
        default is None ==> default_first(names, default) == names,
        default matches Some(d) ==> default_first(names, default)[0] == d,
        default matches Some(d) ==> forall|i: int|
            0 < i < default_first(names, default).len() ==> #[trigger] default_first(
                names,
                default,
            )[i] != d,
        forall|k: int|
            0 <= k < names.len() ==> default_first(names, default).contains(#[trigger] names[k]),
        default matches Some(d) ==> forall|i: int|
            0 < i < default_first(names, default).len() ==> names.contains(
                #[trigger] default_first(names, default)[i],
            ),
{
    if let Some(d) = default {
        lemma_without(names, d);
        let r = default_first(names, default);
        let w = without(names, d);
        assert forall|i: int| 0 < i < r.len() implies #[trigger] r[i] != d by {
            assert(r[i] == w[i - 1]);
        }
        assert forall|k: int| 0 <= k < names.len() implies r.contains(#[trigger] names[k]) by {
            if names[k] == d {
                assert(r[0] == names[k]);
            } else {
                let j = choose|j: int| 0 <= j < w.len() && w[j] == names[k];
                assert(r[j + 1] == w[j]);
            }
        }
        assert forall|i: int| 0 < i < r.len() implies names.contains(#[trigger] r[i]) by {
            assert(r[i] == w[i - 1]);
        }
    } else {
        assert forall|k: int| 0 <= k < names.len() implies default_first(names, default).contains(
            #[trigger] names[k],
        ) by {
        }
    }
}

/// A configured device that is listed, and is not the default, stays
/// selected; a name that is not listed (or asks for the default) never is
/// the selection unless it happens to be the first listed device, and with
/// no devices the selection is "default".
pub proof fn law_listed_choice_is_kept(want: Seq<char>, list: Seq<Seq<char>>)
    ensures
        !means_default(want) && listed(list, want) ==> picked_device(want, list) == want,
        !(!means_default(want) && listed(list, want)) && list.len() > 0 ==> picked_device(
            want,
            list,
        ) == list[0],
        list.len() == 0 ==> picked_device(want, list) == "default"@,
{
}

/// The listing shows each device under its whole name, the name to write
/// in the configuration: a line starts with "  - " and the full name, then
/// " [default]" exactly for the default device, then the channel count, and
/// it ends with a closing parenthesis.
pub proof fn law_device_line_shows_whole_name(d: AudioDeviceInfo)
    ensures
        device_line_text(d).take((4 + d.name@.len()) as int) == "  - "@ + d.name@,
        d.is_default ==> device_line_text(d).subrange(
            (4 + d.name@.len()) as int,
            (14 + d.name@.len()) as int,
        ) == " [default]"@,
        !d.is_default ==> device_line_text(d).subrange((4 + d.name@.len()) as int, (10 + d.name@.len()) as int)
            == "  (ch:"@,
        device_line_text(d).last() == ')',
{
    reveal_strlit("  - ");
    reveal_strlit(" [default]");
    reveal_strlit("  (ch:");
    reveal_strlit(", ");
    reveal_strlit(")");
    reveal_strlit("");
    let n = d.name@;
    let dp = if d.is_default {
        " [default]"@
    } else {
        ""@
    };
    let rest = "  (ch:"@ + decimal(d.channels as nat) + ", "@ + rate_text(d.sample_rates@) + ")"@;
    let line = device_line_text(d);
    assert(line =~= "  - "@ + n + dp + rest);
    assert(line.take((4 + n.len()) as int) =~= "  - "@ + n);
    if d.is_default {
        assert(line.subrange((4 + n.len()) as int, (14 + n.len()) as int) =~= " [default]"@);
    } else {
        assert(line.subrange((4 + n.len()) as int, (10 + n.len()) as int) =~= "  (ch:"@);
    }
}

impl AudioDeviceInfo {
    /// Describes the device called `name`, given the host's default device
    /// name and the device's default configuration (channels, sample rate),
    /// when it has one.
    pub fn describe(name: String, default_name: Option<&str>, default_config: Option<(u16, u32)>) -> (r: Self)
        ensures
            r.name@ == name@,
            r.is_default == (default_name matches Some(d) && d@ == name@),
            default_config matches Some(c) ==> r.channels == c.0 && r.sample_rates@ == seq![c.1],
            default_config is None ==> r.channels == 0 && r.sample_rates@ == Seq::<u32>::empty(),
    {
        let is_default = match default_name {
            Some(d) => str_eq(d, name.as_str()),
            None => false,
        };
        let (channels, sample_rates) = match default_config {
            Some((ch, rate)) => {
                let mut v: Vec<u32> = Vec::new();
                v.push(rate);
                (ch, v)
            },
            None => (0u16, Vec::new()),
        };
        AudioDeviceInfo { name, is_default, channels, sample_rates }
    }
}

/// Puts the default device first and drops its other occurrences.
pub fn default_first_order(names: Vec<String>, default: Option<String>) -> (r: Vec<String>)
    ensures
        string_views(r@) == default_first(
            string_views(names@),
            match default {
                Some(d) => Some(d@),
                None => None,
            },
        ),
{
    match default {
        None => names,
        Some(d) => {
            let mut r: Vec<String> = Vec::new();
            r.push(d.clone());
            let mut i: usize = 0;
            while i < names.len()
                invariant
                    i <= names.len(),
                    string_views(r@) == seq![d@] + without(string_views(names@.take(i as int)), d@),
                decreases names.len() - i,
            {
                let ghost before = r@;
                assert(string_views(names@.take(i + 1)).drop_last() == string_views(
                    names@.take(i as int),
                ));
                assert(string_views(names@.take(i + 1)).last() == names@[i as int]@);
                if !str_eq(names[i].as_str(), d.as_str()) {
                    r.push(names[i].clone());
                    assert(string_views(r@) == string_views(before).push(names@[i as int]@));
                }
                i = i + 1;
            }
            assert(names@.take(names.len() as int) == names@);
            r
        },
    }
}

/// Whether the configured device name means the host's default device.
pub fn wants_default_device(want: &str) -> (b: bool)
    ensures
        b == means_default(want@),
{
    want.is_empty() || eq_ignore_ascii_case_str(want, "default")
}

/// The position of the first entry of `names` equal to `want`, if any.
fn position_of(want: &str, names: &[String]) -> (r: Option<usize>)
    ensures
        r matches Some(i) ==> i < names.len() && names@[i as int]@ == want@ && forall|j: int|
            0 <= j < i ==> names@[j]@ != want@,
        r is None ==> forall|j: int| 0 <= j < names.len() ==> names@[j]@ != want@,
{
    let mut i: usize = 0;
    while i < names.len()
        invariant
            i <= names.len(),
            forall|j: int| 0 <= j < i ==> names@[j]@ != want@,
        decreases names.len() - i,
    {
        if str_eq(names[i].as_str(), want) {
            return Some(i);
        }
        i = i + 1;
    }
    None
}

/// The device that the configured name `want` selects among `names`: an
/// empty name or "default" (in any letter case) selects the host's default
/// device; otherwise the first device of that exact name, and where there
/// is none, the default device again.
pub fn resolve_device(want: &str, names: &[String]) -> (r: DeviceChoice)
    ensures
        means_default(want@) ==> r == DeviceChoice::SystemDefault,
        !means_default(want@) ==> match r {
            DeviceChoice::Listed(i) => i < names.len() && names@[i as int]@ == want@ && forall|
                j: int,
            | 0 <= j < i ==> names@[j]@ != want@,
            DeviceChoice::SystemDefault => !listed(string_views(names@), want@),
        },
{
    if wants_default_device(want) {
        return DeviceChoice::SystemDefault;
    }
    match position_of(want, names) {
        Some(i) => DeviceChoice::Listed(i),
        None => {
            assert forall|j: int| 0 <= j < names@.len() implies string_views(names@)[j] != want@ by {
                assert(string_views(names@)[j] == names@[j]@);
            }
            DeviceChoice::SystemDefault
        },
    }
}

/// The device name to select for the configured name `want`, given the
/// listed devices.
pub fn pick_device(want: &str, list: &[String]) -> (r: String)
    ensures
        r@ == picked_device(want@, string_views(list@)),
{
    if !wants_default_device(want) {
        if let Some(i) = position_of(want, list) {
            assert(string_views(list@)[i as int] == want@);
            return String::from_str(want);
        }
        assert(!listed(string_views(list@), want@)) by {
            assert forall|j: int| 0 <= j < list@.len() implies string_views(list@)[j] != want@ by {
                assert(string_views(list@)[j] == list@[j]@);
            }
        }
    }
    if list.len() > 0 {
        list[0].clone()
    } else {
        String::from_str("default")
    }
}

/// A device name shortened for display.
pub fn short(name: &str) -> (r: String)
    ensures
        r@ == shortened(name@),
{
    let chars = chars_of(name);
    if chars.len() > 34 {
        let mut r = string_from_range(&chars, 0, 33);
        push_char(&mut r, '…');
        r
    } else {
        String::from_str(name)
    }
}

/// The line that lists a device.
pub fn device_line(d: &AudioDeviceInfo) -> (r: String)
    ensures
        r@ == device_line_text(*d),
{
    let mut r = concat_str("  - ", d.name.as_str());
    let ghost default_part = if d.is_default {
        " [default]"@
    } else {
        ""@
    };
    if d.is_default {
        r.append(" [default]");
    }
    proof {
        reveal_strlit("");
    }
    assert(r@ =~= "  - "@ + d.name@ + default_part);
    r.append("  (ch:");
    push_decimal(&mut r, d.channels as u64);
    r.append(", ");
    let ghost mid = r@;
    assert(mid =~= "  - "@ + d.name@ + default_part + "  (ch:"@ + decimal(d.channels as nat) + ", "@);
    if d.sample_rates.len() > 0 {
        push_decimal(&mut r, d.sample_rates[0] as u64);
        r.append("Hz");
    } else {
        r.append("?");
    }
    assert(r@ =~= mid + rate_text(d.sample_rates@));
    r.append(")");
    assert(r@ =~= device_line_text(*d));
    r
}

/// Appends the lines of one section of the device listing.
fn push_section(lines: &mut Vec<String>, header: &str, infos: &[AudioDeviceInfo])
    ensures
        string_views(final(lines)@) == string_views(old(lines)@) + section_lines(header@, infos@),
{
    let ghost start = string_views(lines@);
    lines.push(String::from_str(header));
    if infos.len() == 0 {
        lines.push(String::from_str("  (見つかりません)"));
    }
    let ghost prefix = string_views(lines@);
    assert(prefix == start + seq![header@] + (if infos@.len() == 0 {
        seq!["  (見つかりません)"@]
    } else {
        seq![]
    }));
    let mut i: usize = 0;
    while i < infos.len()
        invariant
            i <= infos.len(),
            string_views(lines@) == prefix + infos@.take(i as int).map_values(
                |d: AudioDeviceInfo| device_line_text(d),
            ),
        decreases infos.len() - i,
    {
        let line = device_line(&infos[i]);
        let ghost before = lines@;
        lines.push(line);
        assert(infos@.take(i + 1).map_values(|d: AudioDeviceInfo| device_line_text(d))
            == infos@.take(i as int).map_values(|d: AudioDeviceInfo| device_line_text(d)).push(
            device_line_text(infos@[i as int]),
        ));
        assert(string_views(lines@) == string_views(before).push(line@));
        i = i + 1;
    }
    assert(infos@.take(infos.len() as int) == infos@);
}

/// The lines of the device listing (`--list-devices`).
pub fn device_listing(inputs: &[AudioDeviceInfo], outputs: &[AudioDeviceInfo]) -> (r: Vec<String>)
    ensures
        string_views(r@) == listing_lines(inputs@, outputs@),
{
    let mut lines: Vec<String> = Vec::new();
    assert(string_views(lines@) =~= Seq::<Seq<char>>::empty());
    push_section(&mut lines, "=== 入力デバイス ===", inputs);
    let ghost first = string_views(lines@);
    assert(first =~= section_lines("=== 入力デバイス ==="@, inputs@));
    let empty = String::new();
    proof {
        reveal_strlit("");
        assert(empty@ =~= ""@);
    }
    lines.push(empty);
    assert(string_views(lines@) =~= first.push(""@));
    let ghost second = string_views(lines@);
    push_section(&mut lines, "=== 出力デバイス ===", outputs);
    assert(second =~= first + seq![""@]);
    assert(string_views(lines@) =~= second + section_lines("=== 出力デバイス ==="@, outputs@));
    assert(string_views(lines@) =~= listing_lines(inputs@, outputs@));
    lines
}

} // verus!
