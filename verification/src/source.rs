//! Reading raw records out of launcher definition files.  The surrounding
//! binary walks the conventional directories and reads each file; this module
//! decodes one file's text through the desktop-entry library and keeps the
//! record only when it can ever become output: a file that does not decode is
//! silently skipped, and so is an entry without a launch command.  The icon
//! hint is kept exactly as decoded — absent stays absent — and the fallback
//! icon is normalization's business.

use vstd::prelude::*;

use crate::record::App;

verus! {

/// Whether the desktop-entry library decodes this file at all.  Decoding has
/// no locale filter and no translation catalog (the crate's `gettext` feature
/// is off), so it is a function of the path and the text alone; the same
/// holds of the three field results below.
pub uninterp spec fn spec_decode_ok(path: Seq<char>, content: Seq<char>) -> bool;

/// The unlocalized `Name` value the decoded entry yields, if any.
pub uninterp spec fn spec_name_of(path: Seq<char>, content: Seq<char>) -> Option<Seq<char>>;

/// The `Icon` value the decoded entry yields, if any.
pub uninterp spec fn spec_icon_of(path: Seq<char>, content: Seq<char>) -> Option<Seq<char>>;

/// The `Exec` value the decoded entry yields, if any.
pub uninterp spec fn spec_exec_of(path: Seq<char>, content: Seq<char>) -> Option<Seq<char>>;

/// Relies on `freedesktop_desktop_entry::DesktopEntry::from_str` with no
/// locale filter, and on the `name`, `icon` and `exec` accessors of the
/// decoded entry.  With the crate's `gettext` feature off, success and all
/// three values are pure functions of the path and the text, named above;
/// any decode failure (among them a path that does not end in `.desktop`)
/// comes back as `None`.
#[verifier::external_body]
fn decode_fields(path: &str, content: &str) -> (r: Option<
    (Option<String>, Option<String>, Option<String>),
>)
    ensures
        r is Some <==> spec_decode_ok(path@, content@),
        r matches Some(f) ==> {
            &&& f.0.deep_view() == spec_name_of(path@, content@)
            &&& f.1.deep_view() == spec_icon_of(path@, content@)
            &&& f.2.deep_view() == spec_exec_of(path@, content@)
        },
{
    match freedesktop_desktop_entry::DesktopEntry::from_str(
        std::path::Path::new(path),
        content,
        Option::<&[&str]>::None,
    ) {
        Ok(e) => Some((
            e.name::<&str>(&[]).map(|c| c.into_owned()),
            e.icon().map(|s| s.to_string()),
            e.exec().map(|s| s.to_string()),
        )),
        Err(_) => None,
    }
}

/// Builds the raw record out of the three decoded fields: no launch command,
/// no record; name and icon hint pass through exactly as decoded.
pub fn raw_app_from_fields(
    name: Option<String>,
    icon: Option<String>,
    exec_cmd: Option<String>,
) -> (r: Option<App>)
    ensures
        r is Some <==> exec_cmd is Some,
        r matches Some(app) ==> {
            &&& exec_cmd matches Some(x) && app@.exec_cmd == x@
            &&& app@.name == name.deep_view()
            &&& app@.icon == icon.deep_view()
        },
{
    match exec_cmd {
        None => None,
        Some(x) => Some(App { name, icon, exec_cmd: x }),
    }
}

/// Decodes one launcher definition file into a raw record.  A record comes
/// out exactly when the file decodes and its entry has a launch command, and
/// then every field is the decoded value: the launch command verbatim, name
/// and icon hint as found (or absent).
pub fn collect_one(path: &str, content: &str) -> (r: Option<App>)
    ensures
        r is Some <==> (spec_decode_ok(path@, content@) && spec_exec_of(path@, content@) is Some),
        r matches Some(app) ==> {
            &&& app@.name == spec_name_of(path@, content@)
            &&& app@.icon == spec_icon_of(path@, content@)
            &&& app@.exec_cmd == spec_exec_of(path@, content@).unwrap()
        },
{
    match decode_fields(path, content) {
        None => None,
        Some(f) => {
            let (name, icon, exec_cmd) = f;
            raw_app_from_fields(name, icon, exec_cmd)
        },
    }
}

} // verus!
