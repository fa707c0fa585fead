//! Turning raw records into fully populated ones.  Icon resolution goes
//! through the icon theme library and depends on what is installed, so the
//! decision logic is split off: `normalize_resolved` takes the resolution
//! outcome as an argument and is pinned down exactly, and `try_from` performs
//! the lookups (hint first, then the fallback icon) before handing over.
//! Conversion results are always explained by some resolution outcome, and
//! the whole list operation is the exact filter-map of the inputs by
//! `spec_normalize` under per-record outcomes.

use vstd::prelude::*;

use crate::record::{App, AppV, ErrorAppConversion, EwwAppEntry, EwwAppEntryV};
use crate::{DEFAULT_ICON, ICON_SIZE};

verus! {

/// Relies on `freedesktop_icons::lookup` with the fixed size and the
/// resolver's own cache enabled: `Some` carries the path of an icon file the
/// resolver found on disk, and such a path is never the empty string.
#[verifier::external_body]
fn find_icon(name: &str) -> (r: Option<String>)
    ensures
        r matches Some(p) ==> p@.len() > 0,
{
    freedesktop_icons::lookup(name)
        .with_size(ICON_SIZE)
        .with_cache()
        .find()
        .map(|p| p.to_string_lossy().into_owned())
}

/// What normalization yields once icon resolution is settled: no resolved
/// icon fails the record, then a missing name fails it, and otherwise every
/// field of the output is pinned.
pub open spec fn spec_normalize(a: AppV, resolved: Option<Seq<char>>) -> Result<
    EwwAppEntryV,
    ErrorAppConversion,
> {
    match resolved {
        None => Err(ErrorAppConversion::ErrDefaultIconNotFound),
        Some(p) => match a.name {
            None => Err(ErrorAppConversion::ErrMissingAppName),
            Some(n) => Ok(EwwAppEntryV { name: n, icon: p, exec_cmd: a.exec_cmd }),
        },
    }
}

/// `r` is exactly what `spec_normalize` yields for the record `a` under the
/// resolution outcome `resolved`.
pub open spec fn normalize_result_matches(
    a: AppV,
    resolved: Option<Seq<char>>,
    r: Result<EwwAppEntry, ErrorAppConversion>,
) -> bool {
    match r {
        Ok(e) => spec_normalize(a, resolved) matches Ok(ev) && e@ == ev,
        Err(k) => spec_normalize(a, resolved) matches Err(k2) && k == k2,
    }
}

/// A resolution outcome that explains the conversion result `r` for the
/// record `a`: the result is exactly `spec_normalize` under it, and a present
/// path is non-empty.
pub open spec fn explains_conversion(
    a: AppV,
    resolved: Option<Seq<char>>,
    r: Result<EwwAppEntry, ErrorAppConversion>,
) -> bool {
    &&& normalize_result_matches(a, resolved, r)
    &&& (resolved matches Some(p) ==> p.len() > 0)
}

/// The decision half of normalization: `resolved` is the outcome of icon
/// resolution, and the result is exactly `spec_normalize`.
pub fn normalize_resolved(app: App, resolved: Option<String>) -> (r: Result<
    EwwAppEntry,
    ErrorAppConversion,
>)
    ensures
        normalize_result_matches(app@, resolved.deep_view(), r),
{
    match resolved {
        None => Err(ErrorAppConversion::ErrDefaultIconNotFound),
        Some(p) => match app.name {
            None => Err(ErrorAppConversion::ErrMissingAppName),
            Some(n) => Ok(EwwAppEntry { name: n, icon: p, exec_cmd: app.exec_cmd }),
        },
    }
}

impl EwwAppEntry {
    /// Converts one raw record: resolves the icon hint (falling back to the
    /// fixed default icon) at the fixed size, then populates every field or
    /// reports why the record is dropped.  The result is explained by some
    /// resolution outcome; whatever the icon theme holds, a successful
    /// conversion keeps the name and the launch command and its icon path is
    /// non-empty, and a record without a name never converts.
    pub fn try_from(app: App) -> (r: Result<EwwAppEntry, ErrorAppConversion>)
        ensures
            exists|resolved: Option<Seq<char>>| #[trigger] explains_conversion(app@, resolved, r),
            r matches Ok(e) ==> {
                &&& app@.name == Some(e@.name)
                &&& e@.exec_cmd == app@.exec_cmd
                &&& e@.icon.len() > 0
            },
            app@.name is None ==> r is Err,
            r matches Err(k) && k is ErrMissingAppName ==> app@.name is None,
    {
        let resolved: Option<String> = match &app.icon {
            Some(hint) => {
                let first = find_icon(hint.as_str());
                match first {
                    Some(p) => Some(p),
                    None => find_icon(DEFAULT_ICON),
                }
            },
            None => find_icon(DEFAULT_ICON),
        };
        assert(resolved matches Some(p) ==> p@.len() > 0);
        let ghost av = app@;
        let ghost rv = resolved.deep_view();
        proof {
            assert(rv matches Some(pv) ==> pv.len() > 0);
        }
        let r = normalize_resolved(app, resolved);
        proof {
            assert(explains_conversion(av, rv, r));
        }
        r
    }
}

/// The output list is derived from the input list in source order: `ix` picks
/// the converted records' positions, strictly increasing, and each output
/// keeps its source's name and launch command.
pub open spec fn derived_in_order(apps: Seq<AppV>, out: Seq<EwwAppEntryV>, ix: Seq<int>) -> bool {
    &&& ix.len() == out.len()
    &&& forall|j: int| 0 <= j < ix.len() ==> 0 <= #[trigger] ix[j] < apps.len()
    &&& forall|j: int| 0 < j < ix.len() ==> #[trigger] ix[j - 1] < ix[j]
    &&& forall|j: int|
        #![auto]
        0 <= j < ix.len() ==> {
            &&& apps[ix[j]].name == Some(out[j].name)
            &&& apps[ix[j]].exec_cmd == out[j].exec_cmd
        }
}

/// The filter-map of the records by `spec_normalize` under per-record
/// resolution outcomes: exactly the successful conversions, in order.
pub open spec fn spec_filter_normalize(
    apps: Seq<AppV>,
    resolved: Seq<Option<Seq<char>>>,
) -> Seq<EwwAppEntryV>
    decreases apps.len(),
{
    if apps.len() == 0 {
        Seq::empty()
    } else {
        let prefix = spec_filter_normalize(apps.drop_last(), resolved.drop_last());
        match spec_normalize(apps.last(), resolved.last()) {
            Ok(e) => prefix.push(e),
            Err(_) => prefix,
        }
    }
}

/// `rs` is one resolution outcome per record — each a non-empty path when
/// present — under which `out` is exactly the filter-map of the records by
/// `spec_normalize`.
pub open spec fn filtered_by_outcomes(
    apps: Seq<AppV>,
    rs: Seq<Option<Seq<char>>>,
    out: Seq<EwwAppEntryV>,
) -> bool {
    &&& rs.len() == apps.len()
    &&& forall|k: int| 0 <= k < rs.len() ==> ((#[trigger] rs[k]) matches Some(p) ==> p.len() > 0)
    &&& out == spec_filter_normalize(apps, rs)
}

proof fn lemma_filter_normalize_snoc(
    apps: Seq<AppV>,
    rs: Seq<Option<Seq<char>>>,
    x: Option<Seq<char>>,
    i: int,
)
    requires
        0 <= i < apps.len(),
        rs.len() == i,
    ensures
        spec_filter_normalize(apps.take(i + 1), rs.push(x)) == (match spec_normalize(
            apps[i],
            x,
        ) {
            Ok(e) => spec_filter_normalize(apps.take(i), rs).push(e),
            Err(_) => spec_filter_normalize(apps.take(i), rs),
        }),
{
    assert(apps.take(i + 1).drop_last() =~= apps.take(i));
    assert(rs.push(x).drop_last() =~= rs);
    assert(apps.take(i + 1).last() == apps[i]);
    assert(rs.push(x).last() == x);
}

/// Converts every raw record and keeps exactly the successes, in source
/// order: the output is the filter-map of the inputs by `spec_normalize`
/// under some per-record resolution outcomes, so each output record keeps its
/// source's name and launch command and carries the non-empty icon path
/// resolved for its own record.
pub fn produce_eww_entries(apps: Vec<App>) -> (r: Vec<EwwAppEntry>)
    ensures
        r@.len() <= apps@.len(),
        exists|rs: Seq<Option<Seq<char>>>|
            #[trigger] filtered_by_outcomes(apps.deep_view(), rs, r.deep_view()),
        exists|ix: Seq<int>| derived_in_order(apps.deep_view(), r.deep_view(), ix),
        forall|j: int|
            0 <= j < r.deep_view().len() ==> #[trigger] r.deep_view()[j].icon.len() > 0,
{
    let ghost adv = apps.deep_view();
    let mut r: Vec<EwwAppEntry> = Vec::new();
    let ghost mut ix: Seq<int> = Seq::empty();
    let ghost mut rs: Seq<Option<Seq<char>>> = Seq::empty();
    let n = apps.len();
    let mut i: usize = 0;
    while i < n
        invariant
            n == apps@.len(),
            adv == apps.deep_view(),
            adv.len() == n,
            i <= n,
            r@.len() <= i,
            rs.len() == i,
            forall|k: int| 0 <= k < rs.len() ==> ((#[trigger] rs[k]) matches Some(p) ==> p.len() > 0),
            r.deep_view() == spec_filter_normalize(adv.take(i as int), rs),
            derived_in_order(adv, r.deep_view(), ix),
            forall|j: int| 0 <= j < ix.len() ==> #[trigger] ix[j] < i as int,
            forall|j: int|
                0 <= j < r.deep_view().len() ==> #[trigger] r.deep_view()[j].icon.len() > 0,
        decreases n - i,
    {
        let ghost old_rdv = r.deep_view();
        let ghost old_rs = rs;
        let app = apps[i].clone();
        proof {
            assert(app@ == adv[i as int]);
        }
        let res = EwwAppEntry::try_from(app);
        let ghost resolved_i = choose|resolved: Option<Seq<char>>|
            explains_conversion(adv[i as int], resolved, res);
        proof {
            rs = rs.push(resolved_i);
            lemma_filter_normalize_snoc(adv, old_rs, resolved_i, i as int);
        }
        match res {
            Ok(e) => {
                r.push(e);
                proof {
                    ix = ix.push(i as int);
                    assert(r.deep_view() =~= old_rdv.push(e@));
                }
            },
            Err(_) => {},
        }
        i += 1;
    }
    proof {
        assert(adv.take(n as int) =~= adv);
        assert(filtered_by_outcomes(adv, rs, r.deep_view()));
        assert(derived_in_order(adv, r.deep_view(), ix));
    }
    r
}

/// A raw record with a name and a resolved icon path yields exactly one
/// populated record: same name, same launch command, the resolved path as its
/// icon.
pub proof fn lemma_normalize_populates(a: AppV, p: Seq<char>)
    requires
        a.name is Some,
    ensures
        spec_normalize(a, Some(p)) matches Ok(e) && e.name == a.name.unwrap() && e.exec_cmd
            == a.exec_cmd && e.icon == p,
{
}

/// A raw record without a name yields no populated record, however icon
/// resolution went.
pub proof fn lemma_normalize_missing_name(a: AppV, resolved: Option<Seq<char>>)
    requires
        a.name is None,
    ensures
        spec_normalize(a, resolved) is Err,
{
}

/// When neither the icon hint nor the fallback icon resolves, no populated
/// record comes out, whether or not the record has a name.
pub proof fn lemma_normalize_unresolved(a: AppV)
    ensures
        spec_normalize(a, None) is Err,
{
}

} // verus!
