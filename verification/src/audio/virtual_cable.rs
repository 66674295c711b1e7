//! Detection of known virtual audio cables among the output devices.
//!
//! VB-CABLE, VoiceMeeter and BlackHole route what is played to them back as a
//! capture device. Finding one among the outputs tells the user which device
//! to play the processed voice to, and which microphone name to pick in the
//! receiving application.

use crate::text::{
    all_ascii, ascii_lowercase, contains, contains_str, lemma_replace_first_found, lowercase, replace_first, replace_first_str, string_views,
    to_lowercase,
};
use vstd::prelude::*;

verus! {

/// A detected virtual audio cable.
#[derive(Debug, Clone, PartialEq, Eq)]
pub struct VirtualCable {
    /// The kind shown to the user ("VB-CABLE" and the like).
    pub kind: String,
    /// The render device to use as output.
    pub output_device: String,
    /// The capture device name to choose as microphone on the receiving side.
    pub mic_hint: String,
}

/// A cable as the contracts see it: kind, output device, microphone hint.
pub type CableView = (Seq<char>, Seq<char>, Seq<char>);

impl View for VirtualCable {
    type V = CableView;

    open spec fn view(&self) -> CableView {
        (self.kind@, self.output_device@, self.mic_hint@)
    }
}

/// The cable kind that a lowercased device name reveals, if any.
/// VoiceMeeter comes first: its devices also carry "cable" in some names.
pub open spec fn cable_kind(lower: Seq<char>) -> Option<Seq<char>> {
    if contains(lower, "voicemeeter"@) {
        Some("VoiceMeeter"@)
    } else if contains(lower, "cable"@) {
        Some("VB-CABLE"@)
    } else if contains(lower, "blackhole"@) {
        Some("BlackHole"@)
    } else {
        None
    }
}

/// The microphone name that goes with an output device name. Cables come in
/// "X Input" (render) / "X Output" (capture) pairs, so the first "Input"
/// (or else the first "input") becomes "Output" ("output"); a name with
/// neither is the same device on both sides.
pub open spec fn mic_hint_for(name: Seq<char>) -> Seq<char> {
    if contains(name, "Input"@) {
        replace_first(name, "Input"@, "Output"@)
    } else if contains(name, "input"@) {
        replace_first(name, "input"@, "output"@)
    } else {
        name
    }
}

/// The cable that the output device `name`, lowercased to `lower`, is.
pub open spec fn cable_of(name: Seq<char>, lower: Seq<char>) -> Option<CableView> {
    match cable_kind(lower) {
        Some(kind) => Some((kind, name, mic_hint_for(name))),
        None => None,
    }
}

/// The cables among the output devices `names`, in their order.
pub open spec fn cables_among(names: Seq<Seq<char>>) -> Seq<CableView>
    decreases names.len(),
{
    if names.len() == 0 {
        seq![]
    } else {
        let rest = cables_among(names.drop_last());
        match cable_of(names.last(), lowercase(names.last())) {
            Some(c) => rest.push(c),
            None => rest,
        }
    }
}

/// The views of a list of cables.
/// `cables_among` for names made of ASCII characters only, where
/// lowercasing is the ASCII mapping.
pub open spec fn ascii_cables_among(names: Seq<Seq<char>>) -> Seq<CableView>
    decreases names.len(),
{
    if names.len() == 0 {
        seq![]
    } else {
        let rest = ascii_cables_among(names.drop_last());
        match cable_of(names.last(), ascii_lowercase(names.last())) {
            Some(c) => rest.push(c),
            None => rest,
        }
    }
}

/// Whether every name is made of ASCII characters only.
pub open spec fn all_names_ascii(names: Seq<Seq<char>>) -> bool {
    forall|k: int| 0 <= k < names.len() ==> all_ascii(#[trigger] names[k])
}

/// The kind of a cable follows from the words in its lowercased name, with
/// VoiceMeeter taking precedence over a plain cable and a cable over
/// BlackHole; a name with none of the three words is no cable.
pub proof fn law_cable_kind_by_name(lower: Seq<char>)
    ensures
        contains(lower, "voicemeeter"@) ==> cable_kind(lower) == Some("VoiceMeeter"@),
        !contains(lower, "voicemeeter"@) && contains(lower, "cable"@) ==> cable_kind(lower)
            == Some("VB-CABLE"@),
        !contains(lower, "voicemeeter"@) && !contains(lower, "cable"@) && contains(
            lower,
            "blackhole"@,
        ) ==> cable_kind(lower) == Some("BlackHole"@),
        cable_kind(lower) is None <==> (!contains(lower, "voicemeeter"@) && !contains(
            lower,
            "cable"@,
        ) && !contains(lower, "blackhole"@)),
{
}

/// The microphone hint turns the first "Input" of a render device's name
/// into "Output" (or "input" into "output"): the hint is one character
/// longer and names an output. A name with neither word is its own hint (a
/// device that records and plays under one name).
pub proof fn law_mic_hint_names_the_output(name: Seq<char>)
    ensures
        contains(name, "Input"@) ==> mic_hint_for(name).len() == name.len() + 1 && contains(
            mic_hint_for(name),
            "Output"@,
        ),
        !contains(name, "Input"@) && contains(name, "input"@) ==> mic_hint_for(name).len()
            == name.len() + 1 && contains(mic_hint_for(name), "output"@),
        !contains(name, "Input"@) && !contains(name, "input"@) ==> mic_hint_for(name) == name,
{
    reveal_strlit("Input");
    reveal_strlit("Output");
    reveal_strlit("input");
    reveal_strlit("output");
    if contains(name, "Input"@) {
        lemma_replace_first_found(name, "Input"@, "Output"@);
    } else if contains(name, "input"@) {
        lemma_replace_first_found(name, "input"@, "output"@);
    }
}

/// Whether the output device `name` is a virtual cable: its lowercase form
/// reveals a cable kind.
pub open spec fn names_a_cable(name: Seq<char>) -> bool {
    cable_kind(lowercase(name)) is Some
}

/// `names_a_cable` as a predicate.
pub open spec fn cable_name_filter() -> spec_fn(Seq<char>) -> bool {
    |name: Seq<char>| names_a_cable(name)
}

/// Every output device that is a virtual cable is offered, each as a cable
/// of its own, even when several are of the same kind: there are as many
/// cables as cable devices, and each cable device `names[k]` appears with
/// its kind and its microphone hint.
pub proof fn law_every_cable_is_offered(names: Seq<Seq<char>>)
    ensures
        cables_among(names).len() == names.filter(cable_name_filter()).len(),
        forall|k: int|
            0 <= k < names.len() && names_a_cable(#[trigger] names[k]) ==> exists|j: int|
                0 <= j < cables_among(names).len() && cables_among(names)[j] == (
                    cable_kind(lowercase(names[k]))->0,
                    names[k],
                    mic_hint_for(names[k]),
                ),
    decreases names.len(),
{
    reveal(Seq::filter);
    if names.len() > 0 {
        let init = names.drop_last();
        law_every_cable_is_offered(init);
        assert(cable_name_filter()(names.last()) == names_a_cable(names.last()));
        let rest = cables_among(init);
        assert forall|k: int|
            0 <= k < names.len() && names_a_cable(#[trigger] names[k]) implies exists|j: int|
                0 <= j < cables_among(names).len() && cables_among(names)[j] == (
                    cable_kind(lowercase(names[k]))->0,
                    names[k],
                    mic_hint_for(names[k]),
                ) by {
            if k < names.len() - 1 {
                assert(init[k] == names[k]);
                assert(names_a_cable(init[k]));
                let j = choose|j: int|
                    0 <= j < rest.len() && rest[j] == (
                        cable_kind(lowercase(init[k]))->0,
                        init[k],
                        mic_hint_for(init[k]),
                    );
                assert(cables_among(names)[j] == rest[j]);
            } else {
                assert(names[k] == names.last());
                assert(cables_among(names)[rest.len() as int] == (
                    cable_kind(lowercase(names[k]))->0,
                    names[k],
                    mic_hint_for(names[k]),
                ));
            }
        }
    }
}

pub open spec fn cable_views(v: Seq<VirtualCable>) -> Seq<CableView> {
    v.map_values(|c: VirtualCable| c@)
}

/// Every detected cable is one of the given output devices, so routing the
/// output to a cable always names a device that exists.
pub proof fn law_cables_are_listed(names: Seq<Seq<char>>)
    ensures
        forall|k: int|
            0 <= k < cables_among(names).len() ==> names.contains(#[trigger] cables_among(names)[k].1),
    decreases names.len(),
{
    if names.len() > 0 {
        let init = names.drop_last();
        law_cables_are_listed(init);
        assert forall|k: int| 0 <= k < cables_among(names).len() implies names.contains(
            #[trigger] cables_among(names)[k].1,
        ) by {
            if k < cables_among(init).len() {
                assert(init.contains(cables_among(init)[k].1));
                let j = choose|j: int| 0 <= j < init.len() && init[j] == cables_among(init)[k].1;
                assert(names[j] == init[j]);
            } else {
                assert(names[names.len() - 1] == names.last());
            }
        }
    }
}

/// The microphone name for the output device `output_name`.
pub fn derive_mic_hint(output_name: &str) -> (r: String)
    ensures
        r@ == mic_hint_for(output_name@),
{
    if contains_str(output_name, "Input") {
        replace_first_str(output_name, "Input", "Output")
    } else if contains_str(output_name, "input") {
        replace_first_str(output_name, "input", "output")
    } else {
        String::from_str(output_name)
    }
}

/// Classifies the output device `output_name` whose lowercase form is
/// `lower`: the cable it is, or `None` for an ordinary device.
pub fn classify_lowered(output_name: &str, lower: &str) -> (r: Option<VirtualCable>)
    ensures
        r matches Some(c) ==> cable_of(output_name@, lower@) == Some(c@),
        r is None ==> cable_of(output_name@, lower@) is None,
{
    let kind = if contains_str(lower, "voicemeeter") {
        "VoiceMeeter"
    } else if contains_str(lower, "cable") {
        "VB-CABLE"
    } else if contains_str(lower, "blackhole") {
        "BlackHole"
    } else {
        return None;
    };
    Some(
        VirtualCable {
            kind: String::from_str(kind),
            output_device: String::from_str(output_name),
            mic_hint: derive_mic_hint(output_name),
        },
    )
}

/// Classifies one output device name: the cable it is, or `None`.
pub fn classify(output_name: &str) -> (r: Option<VirtualCable>)
    ensures
        r matches Some(c) ==> cable_of(output_name@, lowercase(output_name@)) == Some(c@),
        r is None ==> cable_of(output_name@, lowercase(output_name@)) is None,
        all_ascii(output_name@) ==> (r matches Some(c) ==> cable_of(
            output_name@,
            ascii_lowercase(output_name@),
        ) == Some(c@)),
        all_ascii(output_name@) ==> (r is None ==> cable_of(
            output_name@,
            ascii_lowercase(output_name@),
        ) is None),
{
    let lower = to_lowercase(output_name);
    classify_lowered(output_name, lower.as_str())
}

/// The virtual cables among the output device names, in their order.
pub fn detect_from(outputs: &[String]) -> (r: Vec<VirtualCable>)
    ensures
        cable_views(r@) == cables_among(string_views(outputs@)),
        all_names_ascii(string_views(outputs@)) ==> cable_views(r@) == ascii_cables_among(
            string_views(outputs@),
        ),
{
    let mut found: Vec<VirtualCable> = Vec::new();
    let mut i: usize = 0;
    while i < outputs.len()
        invariant
            i <= outputs.len(),
            cable_views(found@) == cables_among(string_views(outputs@.take(i as int))),
            all_names_ascii(string_views(outputs@)) ==> cable_views(found@) == ascii_cables_among(
                string_views(outputs@.take(i as int)),
            ),
        decreases outputs.len() - i,
    {
        let ghost before = found@;
        assert(string_views(outputs@.take(i + 1)).drop_last() == string_views(outputs@.take(i as int)));
        assert(string_views(outputs@.take(i + 1)).last() == outputs@[i as int]@);
        assert(string_views(outputs@)[i as int] == outputs@[i as int]@);
        match classify(outputs[i].as_str()) {
            Some(c) => {
                found.push(c);
                assert(cable_views(found@) == cable_views(before).push(c@));
            },
            None => {},
        }
        i = i + 1;
    }
    assert(outputs@.take(outputs.len() as int) == outputs@);
    found
}

} // verus!
