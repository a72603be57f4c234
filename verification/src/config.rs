//! The build configuration: where the module is, what it is compiled with.

use crate::features::TargetFeatures;
use crate::layout::{join, joined};
use vstd::prelude::*;

verus! {

/// One build request.
#[derive(Debug, PartialEq, Eq)]
pub struct Args {
    /// Directory of the module to build.
    pub module_dir: String,
    pub features: TargetFeatures,
    /// Environment variables for the build, in the order they were written.
    pub env_vars: Vec<(String, String)>,
    /// Whether to build with optimisations.
    pub release: bool,
}

/// [`Args`] as contracts speak of it, its text as sequences of characters.
pub struct ArgsView {
    pub module_dir: Seq<char>,
    pub features: TargetFeatures,
    pub env_vars: Seq<(Seq<char>, Seq<char>)>,
    pub release: bool,
}

impl View for Args {
    type V = ArgsView;

    open spec fn view(&self) -> ArgsView {
        ArgsView {
            module_dir: self.module_dir@,
            features: self.features,
            env_vars: self.env_vars.deep_view(),
            release: self.release,
        }
    }
}

impl DeepView for Args {
    type V = ArgsView;

    open spec fn deep_view(&self) -> ArgsView {
        self@
    }
}

impl ArgsView {
    /// An empty path, no feature, no variable, a debug build.
    pub open spec fn initial() -> ArgsView {
        ArgsView {
            module_dir: Seq::empty(),
            features: TargetFeatures { atomics: false, bulk_memory: false, mutable_globals: false },
            env_vars: Seq::empty(),
            release: false,
        }
    }
}

impl Default for Args {
    fn default() -> (res: Args)
        ensures
            res@ == ArgsView::initial(),
    {
        let res = Args {
            module_dir: String::new(),
            features: TargetFeatures::none(),
            env_vars: Vec::new(),
            release: false,
        };
        proof {
            assert(res.env_vars.deep_view() =~= Seq::empty());
        }
        res
    }
}

impl Args {
    /// Resolves the module's directory against `base`, the directory of the
    /// file that asks for the build. An absolute directory stays as it is.
    pub fn resolve_against(&mut self, base: &str)
        ensures
            final(self)@ == (ArgsView {
                module_dir: joined(base@, old(self)@.module_dir),
                ..old(self)@
            }),
    {
        self.module_dir = join(base, self.module_dir.as_str());
    }
}

} // verus!
