//! The command driver's decisions.  The surrounding binary collects the
//! argument, reads and writes the cache file and prints; everything it
//! decides — which command an argument selects, and whether the list
//! operation prints the cache or recomputes — is taken here.

use vstd::prelude::*;
use vstd::string::StringExecFns;

use crate::json::{
    lemma_escape_plain, plain_char, spec_entries_body, spec_entries_json, spec_entry_json,
    spec_json_string,
};
use crate::normalize::spec_normalize;
use crate::record::{AppV, EwwAppEntryV};

verus! {

/// What the single optional argument selects.
#[derive(Clone, Copy, Debug, PartialEq, Eq, Structural)]
pub enum Command {
    /// No argument, or the literal `-l` flag.
    ListApps,
    /// Any other argument: a placeholder, the process must abort on it.
    Unimplemented,
}

/// Maps the optional first argument to a command: absent or `-l` lists, and
/// anything else is the explicit not-yet-implemented placeholder.
pub fn dispatch(arg: &Option<String>) -> (c: Command)
    ensures
        c is ListApps <==> (arg is None || (arg matches Some(s) && s@ == "-l"@)),
{
    match arg {
        None => Command::ListApps,
        Some(s) => {
            let flag: String = String::from_str("-l");
            if s.eq(&flag) {
                Command::ListApps
            } else {
                Command::Unimplemented
            }
        },
    }
}

/// What the list operation does with the cache read's outcome.
pub enum ListPlan {
    /// The cache file was read: print its text verbatim, touch nothing.
    PrintCached(String),
    /// No usable cache: collect, normalize, print and write the cache.
    Recompute,
}

/// What one list invocation prints, given what the cache read returned and
/// what a fresh computation would print.
pub open spec fn spec_list_output(cache: Option<Seq<char>>, fresh: Seq<char>) -> Seq<char> {
    match cache {
        Some(c) => c,
        None => fresh,
    }
}

/// The read-through decision of the list operation: an intact cache is
/// printed verbatim — never validated, never re-parsed — and only a missing
/// cache forces a fresh computation.
pub fn plan_list(cache: Option<String>) -> (p: ListPlan)
    ensures
        cache matches Some(s) ==> (p matches ListPlan::PrintCached(t) && t@ == s@),
        cache is None ==> p is Recompute,
        forall|fresh: Seq<char>|
            match p {
                ListPlan::PrintCached(t) => t@ == #[trigger] spec_list_output(
                    cache.deep_view(),
                    fresh,
                ),
                ListPlan::Recompute => spec_list_output(cache.deep_view(), fresh) == fresh,
            },
{
    match cache {
        Some(s) => ListPlan::PrintCached(s),
        None => ListPlan::Recompute,
    }
}

/// Listing is idempotent under an intact cache: two invocations that both
/// see the same cache text print the same text, whatever either fresh
/// computation would have produced.
pub proof fn lemma_list_idempotent(c: Seq<char>, fresh1: Seq<char>, fresh2: Seq<char>)
    ensures
        spec_list_output(Some(c), fresh1) == spec_list_output(Some(c), fresh2),
{
}

/// The Terminal scenario: a raw record with name `Terminal`, icon hint
/// `utilities-terminal` and launch command `myterm`, normalized under any
/// resolved icon path `p`, renders as an array of exactly one object —
/// the text `[{"name":"Terminal","icon":` then the quoted, escaped `p`,
/// then `,"exec":"myterm"}]`.
pub proof fn lemma_terminal_scenario(p: Seq<char>)
    ensures
        spec_normalize(
            AppV { name: Some("Terminal"@), icon: Some("utilities-terminal"@), exec_cmd: "myterm"@ },
            Some(p),
        ) matches Ok(e) && spec_entries_json(seq![e]) == "[{\"name\":\"Terminal\",\"icon\":"@
            + spec_json_string(p) + ",\"exec\":\"myterm\"}]"@,
{
    let a = AppV {
        name: Some("Terminal"@),
        icon: Some("utilities-terminal"@),
        exec_cmd: "myterm"@,
    };
    let e = EwwAppEntryV { name: "Terminal"@, icon: p, exec_cmd: "myterm"@ };
    assert(spec_normalize(a, Some(p)) matches Ok(e0) && e0 == e);

    reveal_strlit("Terminal");
    assert(forall|i: int| 0 <= i < "Terminal"@.len() ==> plain_char(#[trigger] "Terminal"@[i]));
    lemma_escape_plain("Terminal"@);
    reveal_strlit("myterm");
    assert(forall|i: int| 0 <= i < "myterm"@.len() ==> plain_char(#[trigger] "myterm"@[i]));
    lemma_escape_plain("myterm"@);

    assert(seq![e].drop_last() =~= Seq::<EwwAppEntryV>::empty());
    assert(spec_entries_body(Seq::<EwwAppEntryV>::empty()) =~= Seq::<char>::empty());
    assert(seq![e].len() == 1);
    assert(seq![e].last() == e);
    assert(spec_entries_body(seq![e]) =~= spec_entry_json(e));

    reveal_strlit("{\"name\":");
    reveal_strlit(",\"icon\":");
    reveal_strlit(",\"exec\":");
    reveal_strlit("}");
    reveal_strlit("[{\"name\":\"Terminal\",\"icon\":");
    reveal_strlit(",\"exec\":\"myterm\"}]");
    assert(spec_entries_json(seq![e]) =~= "[{\"name\":\"Terminal\",\"icon\":"@
        + spec_json_string(p) + ",\"exec\":\"myterm\"}]"@);
}

/// The cache round-trips: once a fresh pass has stored the JSON it printed,
/// a later read-through prints exactly what the same computation would have
/// printed with no cache present.
pub proof fn lemma_cache_round_trip(es: Seq<EwwAppEntryV>)
    ensures
        spec_list_output(Some(spec_entries_json(es)), spec_entries_json(es)) == spec_list_output(
            None,
            spec_entries_json(es),
        ),
{
}

} // verus!
