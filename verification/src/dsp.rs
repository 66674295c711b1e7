//! The order of the processing chain.
//!
//! "Clean in (correction) → change (voice) → clean out (finishing)": DC cut,
//! noise reduction, noise gate, auto gain, pitch/formant, fluctuation, EQ,
//! harmonic enhancer, de-esser, compressor, and the limiter last of all, so
//! that nothing after it can push the output past its ceiling.

pub mod framing;
pub mod noise;

use vstd::prelude::*;

verus! {

/// A stage of the processing chain.
#[derive(Debug, Clone, Copy, PartialEq, Eq, Structural)]
pub enum ProcessingStage {
    DcBlock,
    Denoise,
    NoiseGate,
    AutoGain,
    PitchFormant,
    Fluctuation,
    Eq,
    Harmonic,
    DeEsser,
    Compressor,
    Limiter,
}

/// The stages in processing order.
pub open spec fn processing_order() -> Seq<ProcessingStage> {
    seq![
        ProcessingStage::DcBlock,
        ProcessingStage::Denoise,
        ProcessingStage::NoiseGate,
        ProcessingStage::AutoGain,
        ProcessingStage::PitchFormant,
        ProcessingStage::Fluctuation,
        ProcessingStage::Eq,
        ProcessingStage::Harmonic,
        ProcessingStage::DeEsser,
        ProcessingStage::Compressor,
        ProcessingStage::Limiter,
    ]
}

/// The name under which a stage reports itself.
pub open spec fn stage_name(s: ProcessingStage) -> Seq<char> {
    match s {
        ProcessingStage::DcBlock => "dc_block"@,
        ProcessingStage::Denoise => "denoise"@,
        ProcessingStage::NoiseGate => "noise_gate"@,
        ProcessingStage::AutoGain => "auto_gain"@,
        ProcessingStage::PitchFormant => "pitch_formant"@,
        ProcessingStage::Fluctuation => "fluctuation"@,
        ProcessingStage::Eq => "eq"@,
        ProcessingStage::Harmonic => "harmonic"@,
        ProcessingStage::DeEsser => "deesser"@,
        ProcessingStage::Compressor => "compressor"@,
        ProcessingStage::Limiter => "limiter"@,
    }
}

impl ProcessingStage {
    /// The stages in processing order.
    pub fn chain_order() -> (r: [ProcessingStage; 11])
        ensures
            r@ == processing_order(),
    {
        let r = [
            ProcessingStage::DcBlock,
            ProcessingStage::Denoise,
            ProcessingStage::NoiseGate,
            ProcessingStage::AutoGain,
            ProcessingStage::PitchFormant,
            ProcessingStage::Fluctuation,
            ProcessingStage::Eq,
            ProcessingStage::Harmonic,
            ProcessingStage::DeEsser,
            ProcessingStage::Compressor,
            ProcessingStage::Limiter,
        ];
        assert(r@ =~= processing_order());
        r
    }

    /// The name under which the stage reports itself.
    pub fn name(&self) -> (r: &'static str)
        ensures
            r@ == stage_name(*self),
    {
        match self {
            ProcessingStage::DcBlock => "dc_block",
            ProcessingStage::Denoise => "denoise",
            ProcessingStage::NoiseGate => "noise_gate",
            ProcessingStage::AutoGain => "auto_gain",
            ProcessingStage::PitchFormant => "pitch_formant",
            ProcessingStage::Fluctuation => "fluctuation",
            ProcessingStage::Eq => "eq",
            ProcessingStage::Harmonic => "harmonic",
            ProcessingStage::DeEsser => "deesser",
            ProcessingStage::Compressor => "compressor",
            ProcessingStage::Limiter => "limiter",
        }
    }
}

/// The chain starts with the DC cut and ends with the limiter, and every
/// stage occurs in it exactly once: the limiter is the last word on the
/// output level.
pub proof fn law_limiter_is_last(s: ProcessingStage)
    ensures
        processing_order()[0] == ProcessingStage::DcBlock,
        processing_order().last() == ProcessingStage::Limiter,
        processing_order().contains(s),
        forall|i: int, j: int|
            0 <= i < j < processing_order().len() ==> processing_order()[i]
                != processing_order()[j],
{
    let o = processing_order();
    match s {
        ProcessingStage::DcBlock => assert(o[0] == s),
        ProcessingStage::Denoise => assert(o[1] == s),
        ProcessingStage::NoiseGate => assert(o[2] == s),
        ProcessingStage::AutoGain => assert(o[3] == s),
        ProcessingStage::PitchFormant => assert(o[4] == s),
        ProcessingStage::Fluctuation => assert(o[5] == s),
        ProcessingStage::Eq => assert(o[6] == s),
        ProcessingStage::Harmonic => assert(o[7] == s),
        ProcessingStage::DeEsser => assert(o[8] == s),
        ProcessingStage::Compressor => assert(o[9] == s),
        ProcessingStage::Limiter => assert(o[10] == s),
    }
}

/// Whether stage `a` runs before stage `b` in the chain.
pub open spec fn runs_before(a: ProcessingStage, b: ProcessingStage) -> bool {
    exists|i: int, j: int|
        0 <= i < j < processing_order().len() && processing_order()[i] == a && processing_order()[j]
            == b
}

/// The chain runs its stages in the designed order: the correction stages
/// (DC cut, noise reduction, noise gate, auto gain) come before the voice is
/// changed (pitch/formant, fluctuation), and the finishing stages (EQ,
/// harmonics, de-esser, compressor) follow, the de-esser before the
/// compressor and the limiter after everything.
pub proof fn law_stage_order()
    ensures
        processing_order().len() == 11,
        runs_before(ProcessingStage::DcBlock, ProcessingStage::Denoise),
        runs_before(ProcessingStage::Denoise, ProcessingStage::NoiseGate),
        runs_before(ProcessingStage::NoiseGate, ProcessingStage::AutoGain),
        runs_before(ProcessingStage::AutoGain, ProcessingStage::PitchFormant),
        runs_before(ProcessingStage::PitchFormant, ProcessingStage::Fluctuation),
        runs_before(ProcessingStage::Fluctuation, ProcessingStage::Eq),
        runs_before(ProcessingStage::Eq, ProcessingStage::Harmonic),
        runs_before(ProcessingStage::Harmonic, ProcessingStage::DeEsser),
        runs_before(ProcessingStage::DeEsser, ProcessingStage::Compressor),
        runs_before(ProcessingStage::Compressor, ProcessingStage::Limiter),
{
    let o = processing_order();
    assert(o[0] == ProcessingStage::DcBlock && o[1] == ProcessingStage::Denoise);
    assert(o[2] == ProcessingStage::NoiseGate && o[3] == ProcessingStage::AutoGain);
    assert(o[4] == ProcessingStage::PitchFormant && o[5] == ProcessingStage::Fluctuation);
    assert(o[6] == ProcessingStage::Eq && o[7] == ProcessingStage::Harmonic);
    assert(o[8] == ProcessingStage::DeEsser && o[9] == ProcessingStage::Compressor);
    assert(o[10] == ProcessingStage::Limiter);
}

} // verus!
