//! The two record shapes of the library: the raw record read out of one
//! launcher definition file, and the fully populated record that the dock
//! widget consumes.

use vstd::prelude::*;

verus! {

/// A raw launcher record: name and icon hint are optional, the launch command
/// is required (a file without one never becomes a record at all).
pub struct App {
    pub name: Option<String>,
    pub icon: Option<String>,
    pub exec_cmd: String,
}

/// Mathematical model of an `App`: each text field as a sequence of characters.
pub ghost struct AppV {
    pub name: Option<Seq<char>>,
    pub icon: Option<Seq<char>>,
    pub exec_cmd: Seq<char>,
}

impl View for App {
    type V = AppV;

    open spec fn view(&self) -> AppV {
        AppV { name: self.name.deep_view(), icon: self.icon.deep_view(), exec_cmd: self.exec_cmd@ }
    }
}

impl DeepView for App {
    type V = AppV;

    open spec fn deep_view(&self) -> AppV {
        self.view()
    }
}

impl Clone for App {
    fn clone(&self) -> (r: Self)
        ensures
            r@ == self@,
    {
        App { name: self.name.clone(), icon: self.icon.clone(), exec_cmd: self.exec_cmd.clone() }
    }
}

/// A fully populated record: every field present, the icon resolved to a
/// concrete file path.
pub struct EwwAppEntry {
    pub name: String,
    pub icon: String,
    pub exec_cmd: String,
}

/// Mathematical model of an `EwwAppEntry`.
pub ghost struct EwwAppEntryV {
    pub name: Seq<char>,
    pub icon: Seq<char>,
    pub exec_cmd: Seq<char>,
}

impl View for EwwAppEntry {
    type V = EwwAppEntryV;

    open spec fn view(&self) -> EwwAppEntryV {
        EwwAppEntryV { name: self.name@, icon: self.icon@, exec_cmd: self.exec_cmd@ }
    }
}

impl DeepView for EwwAppEntry {
    type V = EwwAppEntryV;

    open spec fn deep_view(&self) -> EwwAppEntryV {
        self.view()
    }
}

/// Why one raw record yields no populated record.
#[derive(Clone, Copy, Debug, PartialEq, Eq, Structural)]
pub enum ErrorAppConversion {
    /// Neither the icon hint nor the fallback icon resolved to a file.
    ErrDefaultIconNotFound,
    /// The raw record carries no application name.
    ErrMissingAppName,
}

} // verus!
