//! The ways in which a run fails.

use vstd::prelude::*;
use vstd::string::StringExecFns;

verus! {

/// Why a run failed.
#[derive(Clone, Debug)]
pub enum OptimizationError {
    /// The module was read but is not valid.
    ValidateWasmInput,
    /// The module was valid when read and is not after the passes.
    ValidateWasmOutput,
    /// The module could not be read; `source` is the engine's report.
    Read { source: String },
    /// The module could not be written; `source` is the engine's report.
    Write { source: String },
    /// The input path is empty or `-`: a run does not read standard input.
    InvalideStdinPath,
    /// The configuration names what the engine does not know; `args` holds
    /// every such name, in the order in which the configuration has them.
    Unsupported { args: Vec<String> },
}

/// The mathematical value of an [`OptimizationError`].
pub enum OptimizationErrorView {
    ValidateWasmInput,
    ValidateWasmOutput,
    Read { source: Seq<char> },
    Write { source: Seq<char> },
    InvalideStdinPath,
    Unsupported { args: Seq<Seq<char>> },
}

impl View for OptimizationError {
    type V = OptimizationErrorView;

    open spec fn view(&self) -> OptimizationErrorView {
        match self {
            OptimizationError::ValidateWasmInput => OptimizationErrorView::ValidateWasmInput,
            OptimizationError::ValidateWasmOutput => OptimizationErrorView::ValidateWasmOutput,
            OptimizationError::Read { source } => OptimizationErrorView::Read { source: source@ },
            OptimizationError::Write { source } => OptimizationErrorView::Write { source: source@ },
            OptimizationError::InvalideStdinPath => OptimizationErrorView::InvalideStdinPath,
            OptimizationError::Unsupported { args } => OptimizationErrorView::Unsupported {
                args: args.deep_view(),
            },
        }
    }
}

/// The items of a list in one line, with a comma and a space between them.
pub open spec fn joined(items: Seq<Seq<char>>) -> Seq<char>
    decreases items.len(),
{
    if items.len() == 0 {
        Seq::empty()
    } else if items.len() == 1 {
        items[0]
    } else {
        joined(items.drop_last()) + ", "@ + items.last()
    }
}

impl OptimizationErrorView {
    /// What the error says of itself.
    pub open spec fn message(self) -> Seq<char> {
        match self {
            OptimizationErrorView::ValidateWasmInput => {
                "Failed to validate wasm: error validating input"@
            },
            OptimizationErrorView::ValidateWasmOutput => "Failed to validate wasm: error after opts"@,
            OptimizationErrorView::Read { source } => "Failed to read module"@,
            OptimizationErrorView::Write { source } => "Failed to write module"@,
            OptimizationErrorView::InvalideStdinPath => "Refusing to read from stdin"@,
            OptimizationErrorView::Unsupported { args } => "Unsupported arguments: "@ + joined(args),
        }
    }

    /// The engine's report that lies behind the error, if it has one.
    pub open spec fn source(self) -> Option<Seq<char>> {
        match self {
            OptimizationErrorView::Read { source } => Some(source),
            OptimizationErrorView::Write { source } => Some(source),
            _ => None,
        }
    }
}

/// A copy of a list of strings.
pub fn copy_strings(list: &Vec<String>) -> (r: Vec<String>)
    ensures
        r.deep_view() == list.deep_view(),
{
    let mut out: Vec<String> = Vec::new();
    let mut i: usize = 0;
    while i < list.len()
        invariant
            i <= list.len(),
            out.deep_view() == list.deep_view().take(i as int),
        decreases list.len() - i,
    {
        let ghost before = out.deep_view();
        out.push(list[i].clone());
        proof {
            assert(list.deep_view()[i as int] == list[i as int]@);
            assert(out.deep_view() =~= before.push(list[i as int]@));
            assert(list.deep_view().take(i + 1) =~= before.push(list[i as int]@));
        }
        i = i + 1;
    }
    proof {
        assert(list.deep_view().take(list.len() as int) =~= list.deep_view());
    }
    out
}

/// The items of a list in one line, with a comma and a space between them.
pub fn join(items: &Vec<String>) -> (r: String)
    ensures
        r@ == joined(items.deep_view()),
{
    let mut line = String::new();
    let mut i: usize = 0;
    while i < items.len()
        invariant
            i <= items.len(),
            line@ == joined(items.deep_view().take(i as int)),
        decreases items.len() - i,
    {
        proof {
            let next = items.deep_view().take(i + 1);
            assert(next.drop_last() =~= items.deep_view().take(i as int));
            assert(next.last() == items[i as int]@);
            assert(next[0] == items.deep_view()[0]);
        }
        if i > 0 {
            line.append(", ");
        }
        line.append(items[i].as_str());
        proof {
            if i == 0 {
                assert(Seq::<char>::empty() + items[0]@ =~= items[0]@);
            }
        }
        i = i + 1;
    }
    proof {
        assert(items.deep_view().take(items.len() as int) =~= items.deep_view());
    }
    line
}

impl OptimizationError {
    /// A copy of the error.
    pub fn duplicate(&self) -> (r: OptimizationError)
        ensures
            r@ == self@,
    {
        match self {
            OptimizationError::ValidateWasmInput => OptimizationError::ValidateWasmInput,
            OptimizationError::ValidateWasmOutput => OptimizationError::ValidateWasmOutput,
            OptimizationError::Read { source } => OptimizationError::Read { source: source.clone() },
            OptimizationError::Write { source } => OptimizationError::Write {
                source: source.clone(),
            },
            OptimizationError::InvalideStdinPath => OptimizationError::InvalideStdinPath,
            OptimizationError::Unsupported { args } => OptimizationError::Unsupported {
                args: copy_strings(args),
            },
        }
    }

    /// What the error says of itself.
    pub fn message(&self) -> (r: String)
        ensures
            r@ == self@.message(),
    {
        match self {
            OptimizationError::ValidateWasmInput => {
                "Failed to validate wasm: error validating input".to_owned()
            },
            OptimizationError::ValidateWasmOutput => {
                "Failed to validate wasm: error after opts".to_owned()
            },
            OptimizationError::Read { source } => "Failed to read module".to_owned(),
            OptimizationError::Write { source } => "Failed to write module".to_owned(),
            OptimizationError::InvalideStdinPath => "Refusing to read from stdin".to_owned(),
            OptimizationError::Unsupported { args } => {
                let mut line = "Unsupported arguments: ".to_owned();
                let list = join(args);
                line.append(list.as_str());
                line
            },
        }
    }

    /// The engine's report that lies behind the error, if it has one.
    pub fn source(&self) -> (r: Option<String>)
        ensures
            crate::api::opt_chars(r) == self@.source(),
    {
        match self {
            OptimizationError::Read { source } => Some(source.clone()),
            OptimizationError::Write { source } => Some(source.clone()),
            _ => None,
        }
    }
}

} // verus!
