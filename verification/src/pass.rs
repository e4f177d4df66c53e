//! The state of one pass over a type library: the text written so far, the
//! statistics gathered so far, and the reason for which the pass stopped, if
//! it did.

use vstd::prelude::*;
use crate::error::{Defect, Error, Halt};

verus! {

/// The result of running [`crate::build`].
#[derive(Debug)]
pub struct BuildResult {
    /// The number of referenced types that could not be found and were
    /// replaced with `__missing_type__`.
    pub num_missing_types: usize,
    /// The number of types that could not be found.
    pub num_types_not_found: usize,
    /// The dispinterfaces that were skipped because dispinterfaces were not
    /// to be emitted.
    pub skipped_dispinterfaces: Vec<String>,
    /// The dual interfaces whose dispinterface half was skipped.
    pub skipped_dispinterface_of_dual_interfaces: Vec<String>,
}

/// What a [`BuildResult`] holds, as mathematical values.
pub struct BuildResultView {
    pub num_missing_types: nat,
    pub num_types_not_found: nat,
    pub skipped_dispinterfaces: Seq<Seq<char>>,
    pub skipped_dispinterface_of_dual_interfaces: Seq<Seq<char>>,
}

impl View for BuildResult {
    type V = BuildResultView;

    open spec fn view(&self) -> BuildResultView {
        BuildResultView {
            num_missing_types: self.num_missing_types as nat,
            num_types_not_found: self.num_types_not_found as nat,
            skipped_dispinterfaces: self.skipped_dispinterfaces.deep_view(),
            skipped_dispinterface_of_dual_interfaces:
                self.skipped_dispinterface_of_dual_interfaces.deep_view(),
        }
    }
}

impl BuildResultView {
    /// The statistics of a pass that has seen nothing yet.
    pub open spec fn empty() -> BuildResultView {
        BuildResultView {
            num_missing_types: 0,
            num_types_not_found: 0,
            skipped_dispinterfaces: Seq::empty(),
            skipped_dispinterface_of_dual_interfaces: Seq::empty(),
        }
    }

    /// The statistics after one more referenced type was found missing, and
    /// the defect if the counter cannot hold one more.
    pub open spec fn missing_type(self) -> (BuildResultView, Option<Halt>) {
        if self.num_missing_types >= usize::MAX {
            (self, Some(Halt::Defect(Defect::Overflow)))
        } else {
            (
                BuildResultView { num_missing_types: self.num_missing_types + 1, ..self },
                None,
            )
        }
    }

    /// The statistics after one more type was not found, and the defect if
    /// the counter cannot hold one more.
    pub open spec fn type_not_found(self) -> (BuildResultView, Option<Halt>) {
        if self.num_types_not_found >= usize::MAX {
            (self, Some(Halt::Defect(Defect::Overflow)))
        } else {
            (
                BuildResultView { num_types_not_found: self.num_types_not_found + 1, ..self },
                None,
            )
        }
    }

    /// The statistics after a dispinterface was skipped.
    pub open spec fn skipped_dispinterface(self, name: Seq<char>) -> BuildResultView {
        BuildResultView {
            skipped_dispinterfaces: self.skipped_dispinterfaces.push(name),
            ..self
        }
    }

    /// The statistics after the dispinterface half of a dual interface was
    /// replaced by the other half.
    pub open spec fn skipped_dual_half(self, name: Seq<char>) -> BuildResultView {
        BuildResultView {
            skipped_dispinterface_of_dual_interfaces:
                self.skipped_dispinterface_of_dual_interfaces.push(name),
            ..self
        }
    }
}

/// The reason in a result, if it holds one.
pub open spec fn halt_of<T>(r: Result<T, Halt>) -> Option<Halt> {
    match r {
        Ok(_) => None,
        Err(h) => Some(h),
    }
}

impl BuildResult {
    /// The statistics of a pass that has seen nothing yet.
    pub fn new() -> (result: BuildResult)
        ensures
            result@ == BuildResultView::empty(),
    {
        let result = BuildResult {
            num_missing_types: 0,
            num_types_not_found: 0,
            skipped_dispinterfaces: Vec::new(),
            skipped_dispinterface_of_dual_interfaces: Vec::new(),
        };
        assert(result@.skipped_dispinterfaces =~= Seq::empty());
        assert(result@.skipped_dispinterface_of_dual_interfaces =~= Seq::empty());
        result
    }

    /// Counts one more referenced type that is missing.
    pub fn count_missing_type(&mut self) -> (r: Result<(), Halt>)
        ensures
            (final(self)@, halt_of(r)) == old(self)@.missing_type(),
    {
        if self.num_missing_types == usize::MAX {
            return Err(Halt::Defect(Defect::Overflow));
        }
        self.num_missing_types = self.num_missing_types + 1;
        Ok(())
    }

    /// Counts one more type that was not found.
    pub fn count_type_not_found(&mut self) -> (r: Result<(), Halt>)
        ensures
            (final(self)@, halt_of(r)) == old(self)@.type_not_found(),
    {
        if self.num_types_not_found == usize::MAX {
            return Err(Halt::Defect(Defect::Overflow));
        }
        self.num_types_not_found = self.num_types_not_found + 1;
        Ok(())
    }

    /// Records a dispinterface that is skipped.
    pub fn skip_dispinterface(&mut self, name: String)
        ensures
            final(self)@ == old(self)@.skipped_dispinterface(name@),
    {
        self.skipped_dispinterfaces.push(name);
        assert(self@.skipped_dispinterfaces =~= old(self)@.skipped_dispinterfaces.push(name@));
    }

    /// Records a dual interface whose dispinterface half is replaced.
    pub fn skip_dual_half(&mut self, name: String)
        ensures
            final(self)@ == old(self)@.skipped_dual_half(name@),
    {
        self.skipped_dispinterface_of_dual_interfaces.push(name);
        assert(self@.skipped_dispinterface_of_dual_interfaces =~= old(
            self,
        )@.skipped_dispinterface_of_dual_interfaces.push(name@));
    }
}

/// The state of a pass.
pub struct Pass {
    /// The text written so far.
    pub text: Seq<char>,
    /// The statistics gathered so far.
    pub result: BuildResultView,
    /// The reason for which the pass stopped, if it did. A pass that stopped
    /// writes nothing more and counts nothing more.
    pub halt: Option<Halt>,
}

impl Pass {
    /// The state that holds the given text and statistics; it has stopped if
    /// the result holds a reason.
    pub open spec fn at<T>(text: Seq<char>, result: BuildResultView, r: Result<T, Halt>) -> Pass {
        Pass { text, result, halt: halt_of(r) }
    }

    /// The state of a pass that holds the given text and statistics and has
    /// not stopped.
    pub open spec fn running(text: Seq<char>, result: BuildResultView) -> Pass {
        Pass { text, result, halt: None }
    }

    /// The state in which a pass begins.
    pub open spec fn start() -> Pass {
        Pass { text: Seq::empty(), result: BuildResultView::empty(), halt: None }
    }

    /// The state after some more text was written.
    pub open spec fn write(self, s: Seq<char>) -> Pass {
        if self.halt is Some {
            self
        } else {
            Pass { text: self.text + s, ..self }
        }
    }

    /// The state after the pass stopped for the given reason.
    pub open spec fn stop(self, h: Halt) -> Pass {
        if self.halt is Some {
            self
        } else {
            Pass { halt: Some(h), ..self }
        }
    }

    /// The state after a native error ended the pass.
    pub open spec fn fail(self, e: Error) -> Pass {
        self.stop(Halt::Failed(e))
    }

    /// The state after a defect ended the pass.
    pub open spec fn defect(self, d: Defect) -> Pass {
        self.stop(Halt::Defect(d))
    }

    /// This state with some text in front of its own.
    pub open spec fn behind(self, before: Seq<char>) -> Pass {
        Pass { text: before + self.text, ..self }
    }

    /// Whether this state can come of `before` through the declarations of
    /// a type: text is added at the end, missing types are counted, and
    /// nothing else changes. A pass that had stopped stays as it was.
    pub open spec fn declared_from(self, before: Pass) -> bool {
        &&& before.text.is_prefix_of(self.text)
        &&& self.result.num_missing_types >= before.result.num_missing_types
        &&& self.result.num_types_not_found == before.result.num_types_not_found
        &&& self.result.skipped_dispinterfaces == before.result.skipped_dispinterfaces
        &&& self.result.skipped_dispinterface_of_dual_interfaces
            == before.result.skipped_dispinterface_of_dual_interfaces
        &&& before.halt is Some ==> self == before
    }

    /// Whether this state can come of `before` in a pass: text is added at
    /// the end, the counters do not fall, and names are added at the end of
    /// the lists. A pass that had stopped stays as it was.
    pub open spec fn follows(self, before: Pass) -> bool {
        &&& before.text.is_prefix_of(self.text)
        &&& self.result.num_missing_types >= before.result.num_missing_types
        &&& self.result.num_types_not_found >= before.result.num_types_not_found
        &&& before.result.skipped_dispinterfaces.is_prefix_of(self.result.skipped_dispinterfaces)
        &&& before.result.skipped_dispinterface_of_dual_interfaces.is_prefix_of(
            self.result.skipped_dispinterface_of_dual_interfaces,
        )
        &&& before.halt is Some ==> self == before
    }

    /// The state after the statistics changed, and the pass stopped if the
    /// change brought a reason.
    pub open spec fn record(self, change: (BuildResultView, Option<Halt>)) -> Pass {
        if self.halt is Some {
            self
        } else {
            Pass { text: self.text, result: change.0, halt: change.1 }
        }
    }
}

} // verus!
