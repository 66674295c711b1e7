//! A native virtual microphone (PipeWire / PulseAudio).
//!
//! A null sink "KuruVoice_Sink" is created, and its monitor is remapped into a
//! source "KuruVoice_Mic". The voice changer plays to the sink; other
//! applications pick the source as their microphone. Creating them takes two
//! `pactl load-module` runs, which the caller performs: this module says
//! which arguments each run gets, reads what a run printed, and decides what
//! comes next. Removing them unloads the source first, then the sink.

use crate::text::{
    concat_str, from_utf8_lossy, parse_u32, parse_u32_str, string_views, trim, trim_str, utf8_lossy,
};
use vstd::prelude::*;

verus! {

/// The virtual sink that the processed voice is played to.
pub const SINK_NAME: &'static str = "KuruVoice_Sink";

/// The virtual source that other applications choose as microphone.
pub const MIC_NAME: &'static str = "KuruVoice_Mic";

/// A virtual microphone created at run time: the module ids of its sink and
/// its source, while they are loaded.
#[derive(Debug)]
pub struct VirtualMic {
    sink_module: Option<u32>,
    source_module: Option<u32>,
}

impl VirtualMic {
    /// The loaded sink module, if any.
    pub closed spec fn sink(&self) -> Option<u32> {
        self.sink_module
    }

    /// The loaded source module, if any.
    pub closed spec fn source(&self) -> Option<u32> {
        self.source_module
    }

    /// The name of the virtual sink.
    pub fn sink_name(&self) -> (r: &'static str)
        ensures
            r@ == SINK_NAME@,
    {
        SINK_NAME
    }

    /// The name of the virtual microphone.
    pub fn mic_name(&self) -> (r: &'static str)
        ensures
            r@ == MIC_NAME@,
    {
        MIC_NAME
    }
}

/// Why a virtual microphone could not be created.
#[derive(Debug, Clone, PartialEq, Eq)]
pub enum MicError {
    /// The operating system has no run-time virtual devices to offer.
    Unsupported,
    /// Loading the null sink failed; the cause is attached.
    SinkFailed(String),
    /// Loading the remapped source failed; the cause is attached, with the
    /// id of the sink module that was loaded before and is still to be
    /// unloaded.
    SourceFailed(String, u32),
}

/// The text shown for a creation error (its cause is kept in the variant).
pub open spec fn mic_error_message(e: MicError) -> Seq<char> {
    match e {
        MicError::Unsupported => "ネイティブ仮想マイクは現在 Linux のみ対応です（Windows は仮想ケーブル連携を使用）"@,
        MicError::SinkFailed(_) => "null-sink の作成に失敗"@,
        MicError::SourceFailed(_, _) => "remap-source の作成に失敗"@,
    }
}

impl MicError {
    /// The text shown for this error.
    pub fn message(&self) -> (r: String)
        ensures
            r@ == mic_error_message(*self),
    {
        match self {
            MicError::Unsupported => String::from_str(
                "ネイティブ仮想マイクは現在 Linux のみ対応です（Windows は仮想ケーブル連携を使用）",
            ),
            MicError::SinkFailed(_) => String::from_str("null-sink の作成に失敗"),
            MicError::SourceFailed(_, _) => String::from_str("remap-source の作成に失敗"),
        }
    }
}

/// The modules that a failed creation left loaded: the sink, when the source
/// failed after it; nothing otherwise.
pub open spec fn leftover_modules(e: MicError) -> Seq<u32> {
    match e {
        MicError::SourceFailed(_, sink) => seq![sink],
        _ => seq![],
    }
}

impl MicError {
    /// The ids of the modules that the failed creation left loaded, to be
    /// unloaded so that no virtual device stays behind.
    pub fn leftover_modules(&self) -> (ids: Vec<u32>)
        ensures
            ids@ == leftover_modules(*self),
    {
        let mut ids: Vec<u32> = Vec::new();
        if let MicError::SourceFailed(_, sink) = self {
            ids.push(*sink);
        }
        proof {
            assert(ids@ =~= leftover_modules(*self));
        }
        ids
    }
}

/// The `pactl load-module` arguments that create the null sink.
pub open spec fn sink_module_args() -> Seq<Seq<char>> {
    seq![
        "module-null-sink"@,
        "sink_name="@ + SINK_NAME@,
        "sink_properties=device.description="@ + SINK_NAME@,
    ]
}

/// The `pactl load-module` arguments that remap the sink's monitor into the
/// microphone source.
pub open spec fn source_module_args() -> Seq<Seq<char>> {
    seq![
        "module-remap-source"@,
        "master="@ + SINK_NAME@ + ".monitor"@,
        "source_name="@ + MIC_NAME@,
        "source_properties=device.description="@ + MIC_NAME@,
    ]
}

/// What one `pactl load-module` run amounts to: the module id it printed,
/// or why it failed. `success` is whether the process exited successfully.
pub open spec fn load_outcome(success: bool, stdout: Seq<u8>, stderr: Seq<u8>) -> Result<
    u32,
    Seq<char>,
> {
    if !success {
        Err(load_failure_message(utf8_lossy(stderr)))
    } else {
        match parse_u32(trim(utf8_lossy(stdout))) {
            Some(id) => Ok(id),
            None => Err("module id の解析に失敗"@),
        }
    }
}

/// The error text for a `pactl` run that failed with `stderr` text.
pub open spec fn load_failure_message(stderr: Seq<char>) -> Seq<char> {
    "pactl load-module 失敗: "@ + stderr
}

/// The view of a `Result<u32, String>`.
pub open spec fn result_view(r: Result<u32, String>) -> Result<u32, Seq<char>> {
    match r {
        Ok(id) => Ok(id),
        Err(e) => Err(e@),
    }
}

/// `x` as a sequence of zero or one element.
pub open spec fn option_seq(x: Option<u32>) -> Seq<u32> {
    match x {
        Some(v) => seq![v],
        None => seq![],
    }
}

/// The module id that a successful `pactl load-module` printed as `stdout`.
pub fn module_id_from_text(stdout: &str) -> (r: Option<u32>)
    ensures
        r == parse_u32(trim(stdout@)),
{
    let t = trim_str(stdout);
    parse_u32_str(t.as_str())
}

/// The error text for a `pactl` run that failed with `stderr` text.
pub fn load_failure_text(stderr: &str) -> (r: String)
    ensures
        r@ == load_failure_message(stderr@),
{
    concat_str("pactl load-module 失敗: ", stderr)
}

impl VirtualMic {
    /// Whether the operating system named `os` (as `std::env::consts::OS`
    /// names it) can host a native virtual microphone: Linux only.
    pub fn is_supported(os: &str) -> (b: bool)
        ensures
            b == (os@ == "linux"@),
    {
        let linux = String::from_str("linux");
        let given = String::from_str(os);
        given == linux
    }

    /// Starts creating a virtual microphone on the operating system `os`.
    /// Off Linux this fails at once; on Linux the returned set-up says which
    /// module to load first.
    pub fn create(os: &str) -> (r: Result<MicSetup, MicError>)
        ensures
            os@ == "linux"@ ==> (r matches Ok(setup) && setup.loaded_sink() is None),
            os@ != "linux"@ ==> r == Err::<MicSetup, MicError>(MicError::Unsupported),
    {
        if !Self::is_supported(os) {
            return Err(MicError::Unsupported);
        }
        Ok(MicSetup { sink_module: None })
    }

    /// Reads one `pactl load-module` run: whether it exited successfully,
    /// and what it printed on standard output and standard error.
    pub fn load_result(success: bool, stdout: &[u8], stderr: &[u8]) -> (r: Result<u32, String>)
        ensures
            result_view(r) == load_outcome(success, stdout@, stderr@),
    {
        if !success {
            let text = from_utf8_lossy(stderr);
            return Err(load_failure_text(text.as_str()));
        }
        let text = from_utf8_lossy(stdout);
        match module_id_from_text(text.as_str()) {
            Some(id) => Ok(id),
            None => Err(String::from_str("module id の解析に失敗")),
        }
    }

    /// Forgets the loaded modules and returns their ids in the order in which
    /// they are to be unloaded: the source first, then the sink.
    pub fn destroy(&mut self) -> (ids: Vec<u32>)
        ensures
            ids@ == option_seq(old(self).source()) + option_seq(old(self).sink()),
            final(self).sink() is None,
            final(self).source() is None,
    {
        let mut ids: Vec<u32> = Vec::new();
        let source = self.source_module.take();
        let sink = self.sink_module.take();
        if let Some(id) = source {
            ids.push(id);
        }
        if let Some(id) = sink {
            ids.push(id);
        }
        assert(ids@ == option_seq(old(self).source()) + option_seq(old(self).sink()));
        ids
    }
}

/// The modules are unloaded in the reverse order of their loading: a
/// microphone whose sink `s` was loaded before its source `t` gives back
/// `t`, then `s`.
pub proof fn law_unload_reverses_load(mic: VirtualMic, s: u32, t: u32)
    requires
        mic.sink() == Some(s),
        mic.source() == Some(t),
    ensures
        option_seq(mic.source()) + option_seq(mic.sink()) == seq![t, s],
{
    assert(option_seq(mic.source()) + option_seq(mic.sink()) =~= seq![t, s]);
}

/// Once destroyed, a microphone has nothing left to unload.
pub proof fn law_destroy_is_final(mic: VirtualMic)
    requires
        mic.sink() is None,
        mic.source() is None,
    ensures
        option_seq(mic.source()) + option_seq(mic.sink()) == Seq::<u32>::empty(),
{
    assert(option_seq(mic.source()) + option_seq(mic.sink()) =~= Seq::<u32>::empty());
}

/// The modules that the outcome of a creation step holds, in the order in
/// which they are to be unloaded: the sink of a set-up still in progress,
/// the source and then the sink of a finished microphone, or what an error
/// left over.
pub open spec fn held_modules(r: Result<MicProgress, MicError>) -> Seq<u32> {
    match r {
        Ok(MicProgress::Pending(setup)) => option_seq(setup.loaded_sink()),
        Ok(MicProgress::Ready(mic)) => option_seq(mic.source()) + option_seq(mic.sink()),
        Err(e) => leftover_modules(e),
    }
}

/// A virtual microphone being created: the sink module, once it is loaded.
#[derive(Debug)]
pub struct MicSetup {
    sink_module: Option<u32>,
}

/// Where the creation stands after a module was loaded.
#[derive(Debug)]
pub enum MicProgress {
    /// Another module is to be loaded.
    Pending(MicSetup),
    /// Both modules are loaded.
    Ready(VirtualMic),
}

impl MicSetup {
    /// The sink module loaded so far, if any.
    pub closed spec fn loaded_sink(&self) -> Option<u32> {
        self.sink_module
    }

    /// The arguments of the next `pactl load-module` run: the null sink
    /// first, then the remapped source.
    pub fn module_args(&self) -> (args: Vec<String>)
        ensures
            self.loaded_sink() is None ==> string_views(args@) == sink_module_args(),
            self.loaded_sink() is Some ==> string_views(args@) == source_module_args(),
    {
        let mut args: Vec<String> = Vec::new();
        if self.sink_module.is_none() {
            args.push(String::from_str("module-null-sink"));
            args.push(concat_str("sink_name=", SINK_NAME));
            args.push(concat_str("sink_properties=device.description=", SINK_NAME));
            assert(string_views(args@) == sink_module_args());
        } else {
            args.push(String::from_str("module-remap-source"));
            let mut master = concat_str("master=", SINK_NAME);
            master.append(".monitor");
            args.push(master);
            args.push(concat_str("source_name=", MIC_NAME));
            args.push(concat_str("source_properties=device.description=", MIC_NAME));
            assert(string_views(args@) == source_module_args());
        }
        args
    }

    /// Takes the outcome of the last `pactl load-module` run. A failure
    /// ends the creation with the step that failed and its cause; when the
    /// source fails, the error also carries the loaded sink, so that it can
    /// be unloaded. After the sink comes the source, and after the source the
    /// microphone is ready.
    pub fn module_loaded(self, loaded: Result<u32, String>) -> (r: Result<MicProgress, MicError>)
        ensures
            self.loaded_sink() is None ==> match loaded {
                Ok(id) => (r matches Ok(MicProgress::Pending(next)) && next.loaded_sink() == Some(
                    id,
                )),
                Err(e) => r == Err::<MicProgress, MicError>(MicError::SinkFailed(e)),
            },
            self.loaded_sink() matches Some(sink) ==> match loaded {
                Ok(id) => (r matches Ok(MicProgress::Ready(mic)) && mic.sink() == Some(sink)
                    && mic.source() == Some(id)),
                Err(e) => r == Err::<MicProgress, MicError>(MicError::SourceFailed(e, sink)),
            },
            held_modules(r) == (match loaded {
                Ok(id) => seq![id] + option_seq(self.loaded_sink()),
                Err(_) => option_seq(self.loaded_sink()),
            }),
    {
        match self.sink_module {
            None => match loaded {
                Ok(id) => Ok(MicProgress::Pending(MicSetup { sink_module: Some(id) })),
                Err(e) => Err(MicError::SinkFailed(e)),
            },
            Some(sink) => match loaded {
                Ok(id) => Ok(
                    MicProgress::Ready(
                        VirtualMic { sink_module: Some(sink), source_module: Some(id) },
                    ),
                ),
                Err(e) => Err(MicError::SourceFailed(e, sink)),
            },
        }
    }
}

} // verus!
