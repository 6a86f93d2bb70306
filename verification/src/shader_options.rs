//! Assembling the input of one shader byte-code compilation.
//!
//! Shader byte code is produced by an external compiler from source text
//! plus a handful of options: an entry point, a target profile, optional
//! preprocessor macro pairs, and numeric compile-flag fields.  Callers
//! state the options as a list; this module folds the list into the one
//! record the compiler consumes.  A scalar option named twice keeps its
//! last value, macro definitions accumulate in order, and the three
//! required pieces — source, entry point, target — are checked before the
//! record is produced.  Reading a source file and invoking the compiler
//! itself stay outside the library.

use vstd::prelude::*;
use vstd::string::*;

use crate::error::{DxFilterErr, DxResult};

verus! {

/// One option for a shader compilation, as a caller states it.
pub enum ShaderOption {
    /// Shader source given inline.
    Src(String),
    /// Shader source read from a file by the caller: the file's text and
    /// the directory the compiler resolves includes against.
    SrcFile {
        /// The file's text.
        contents: String,
        /// The directory of the file, for include resolution.
        include_dir: String,
    },
    /// Name handed to the compiler for include resolution.
    SrcName(String),
    /// One preprocessor macro: its name and its definition.
    Define(String, String),
    /// Name of the entry point function.
    EntryPoint(String),
    /// Target shading profile.
    Target(String),
    /// First compile-flag field.
    Flags1(u32),
    /// Second compile-flag field.
    Flags2(u32),
    /// Flag field for the secondary data.
    SecondaryDataFlags(u32),
    /// Opaque secondary data handed through to the compiler.
    SecondaryData(Vec<u8>),
}

/// Everything one byte-code compilation consumes.
pub struct ShaderCompileInput {
    /// The shader source text.
    pub src_data: String,
    /// Where the compiler resolves includes, if anywhere.
    pub src_name: Option<String>,
    /// The preprocessor macros, in the order they were given.
    pub defines: Vec<(String, String)>,
    /// Name of the entry point function.
    pub entry_point: String,
    /// Target shading profile.
    pub target: String,
    /// First compile-flag field.
    pub flags1: u32,
    /// Second compile-flag field.
    pub flags2: u32,
    /// Flag field for the secondary data.
    pub secondary_data_flags: u32,
    /// Opaque secondary data handed through to the compiler.
    pub secondary_data: Vec<u8>,
}

/// The assembly state after some prefix of the options: the required
/// pieces may still be missing.
pub ghost struct ShaderOptionsState {
    /// The shader source text, once given.
    pub src_data: Option<String>,
    /// The include-resolution name, once given.
    pub src_name: Option<String>,
    /// The macros accumulated so far.
    pub defines: Seq<(String, String)>,
    /// The entry point, once given.
    pub entry_point: Option<String>,
    /// The target profile, once given.
    pub target: Option<String>,
    /// First compile-flag field; zero until given.
    pub flags1: u32,
    /// Second compile-flag field; zero until given.
    pub flags2: u32,
    /// Flag field for the secondary data; zero until given.
    pub secondary_data_flags: u32,
    /// The secondary data; empty until given.
    pub secondary_data: Seq<u8>,
}

/// The state before any option: nothing given, every flag zero.
pub open spec fn spec_options_init() -> ShaderOptionsState {
    ShaderOptionsState {
        src_data: None,
        src_name: None,
        defines: Seq::empty(),
        entry_point: None,
        target: None,
        flags1: 0,
        flags2: 0,
        secondary_data_flags: 0,
        secondary_data: Seq::empty(),
    }
}

/// How one option changes the assembly state.
pub open spec fn spec_options_step(st: ShaderOptionsState, o: ShaderOption) -> ShaderOptionsState {
    match o {
        ShaderOption::Src(s) => ShaderOptionsState { src_data: Some(s), ..st },
        ShaderOption::SrcFile { contents, include_dir } => ShaderOptionsState {
            src_data: Some(contents),
            src_name: Some(include_dir),
            ..st
        },
        ShaderOption::SrcName(n) => ShaderOptionsState { src_name: Some(n), ..st },
        ShaderOption::Define(name, value) => ShaderOptionsState {
            defines: st.defines.push((name, value)),
            ..st
        },
        ShaderOption::EntryPoint(e) => ShaderOptionsState { entry_point: Some(e), ..st },
        ShaderOption::Target(t) => ShaderOptionsState { target: Some(t), ..st },
        ShaderOption::Flags1(x) => ShaderOptionsState { flags1: x, ..st },
        ShaderOption::Flags2(x) => ShaderOptionsState { flags2: x, ..st },
        ShaderOption::SecondaryDataFlags(x) => ShaderOptionsState {
            secondary_data_flags: x,
            ..st
        },
        ShaderOption::SecondaryData(d) => ShaderOptionsState { secondary_data: d@, ..st },
    }
}

/// The assembly state after a whole option list, folded left to right.
pub open spec fn spec_options_fold(opts: Seq<ShaderOption>) -> ShaderOptionsState
    decreases opts.len(),
{
    if opts.len() == 0 {
        spec_options_init()
    } else {
        spec_options_step(spec_options_fold(opts.drop_last()), opts.last())
    }
}

/// Whether a folded option list yields a complete compilation input.
pub open spec fn spec_options_complete(st: ShaderOptionsState) -> bool {
    st.src_data is Some && st.entry_point is Some && st.target is Some
}

/// Fold an option list into the record one compilation consumes.  A
/// scalar given twice keeps its last value and macro definitions
/// accumulate; the call fails with `BadParam` exactly when the source,
/// the entry point or the target is missing, naming the first of them
/// that is.
pub fn assemble_shader_input(options: Vec<ShaderOption>) -> (r: DxResult<ShaderCompileInput>)
    ensures
        ({
            let folded = spec_options_fold(options@);
            match r {
                Ok(i) => {
                    &&& spec_options_complete(folded)
                    &&& i.src_data == folded.src_data->0
                    &&& i.src_name == folded.src_name
                    &&& i.defines@ == folded.defines
                    &&& i.entry_point == folded.entry_point->0
                    &&& i.target == folded.target->0
                    &&& i.flags1 == folded.flags1
                    &&& i.flags2 == folded.flags2
                    &&& i.secondary_data_flags == folded.secondary_data_flags
                    &&& i.secondary_data@ == folded.secondary_data
                },
                Err(e) => {
                    &&& !spec_options_complete(folded)
                    &&& e matches DxFilterErr::BadParam(m) && m@ == (
                    if folded.src_data is None {
                        "shader source is required"@
                    } else if folded.entry_point is None {
                        "entry_point is required"@
                    } else {
                        "target is required"@
                    })
                },
            }
        }),
{
    let ghost all = options@;
    let mut opts = options;
    let ghost mut done: Seq<ShaderOption> = Seq::empty();

    let mut src_data: Option<String> = None;
    let mut src_name: Option<String> = None;
    let mut defines: Vec<(String, String)> = Vec::new();
    let mut entry_point: Option<String> = None;
    let mut target: Option<String> = None;
    let mut flags1: u32 = 0;
    let mut flags2: u32 = 0;
    let mut secondary_data_flags: u32 = 0;
    let mut secondary_data: Vec<u8> = Vec::new();

    while opts.len() > 0
        invariant
            done + opts@ == all,
            spec_options_fold(done) == (ShaderOptionsState {
                src_data: src_data,
                src_name: src_name,
                defines: defines@,
                entry_point: entry_point,
                target: target,
                flags1: flags1,
                flags2: flags2,
                secondary_data_flags: secondary_data_flags,
                secondary_data: secondary_data@,
            }),
        decreases opts.len(),
    {
        let o = opts.remove(0);
        let ghost og = o;
        proof {
            assert(done.push(og) + opts@ =~= all);
            assert((done + seq![og]).drop_last() =~= done);
            assert(done.push(og) =~= done + seq![og]);
        }
        match o {
            ShaderOption::Src(s) => {
                src_data = Some(s);
            },
            ShaderOption::SrcFile { contents, include_dir } => {
                src_data = Some(contents);
                src_name = Some(include_dir);
            },
            ShaderOption::SrcName(n) => {
                src_name = Some(n);
            },
            ShaderOption::Define(name, value) => {
                defines.push((name, value));
            },
            ShaderOption::EntryPoint(e) => {
                entry_point = Some(e);
            },
            ShaderOption::Target(t) => {
                target = Some(t);
            },
            ShaderOption::Flags1(x) => {
                flags1 = x;
            },
            ShaderOption::Flags2(x) => {
                flags2 = x;
            },
            ShaderOption::SecondaryDataFlags(x) => {
                secondary_data_flags = x;
            },
            ShaderOption::SecondaryData(d) => {
                secondary_data = d;
            },
        }
        proof {
            done = done.push(og);
        }
    }
    proof {
        assert(done =~= all);
    }

    let src_data = match src_data {
        Some(s) => s,
        None => {
            return Err(DxFilterErr::BadParam(String::from_str("shader source is required")));
        },
    };
    let entry_point = match entry_point {
        Some(e) => e,
        None => {
            return Err(DxFilterErr::BadParam(String::from_str("entry_point is required")));
        },
    };
    let target = match target {
        Some(t) => t,
        None => {
            return Err(DxFilterErr::BadParam(String::from_str("target is required")));
        },
    };
    Ok(
        ShaderCompileInput {
            src_data,
            src_name,
            defines,
            entry_point,
            target,
            flags1,
            flags2,
            secondary_data_flags,
            secondary_data,
        },
    )
}

} // verus!
