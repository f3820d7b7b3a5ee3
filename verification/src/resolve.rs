//! Which crates own a file.
//!
//! A file can be the root of a crate, a module of one, or a module that
//! several crates include at once; it can also belong to no crate at all.
//! The project database knows; this module asks it and reports every owner
//! with its display name and its enabled features.

use ra_ap_hir::Crate;
use ra_ap_ide::AnalysisHost;
use ra_ap_vfs::Vfs;
use salsa::plumbing::{AsId, FromId};
use salsa::{Cancelled, Id};
use vstd::prelude::*;
use vstd::string::StringExecFns;

use crate::error::{BatchError, ErrorKind};
use crate::interrupt::{
    interrupted, interruption_of, interruption_text, is_interrupted, Interruption,
};
use crate::order::{ascending, ascending_is_unique, same_names, sort_names, texts};
use crate::paths::AbsolutePath;
use crate::render::{debug_quote, debug_quoted, name_text, optional_view, push_name};
use crate::vfs::{indexed, lookup, vfs_entries, FileId, MAX_FILE_ID};

verus! {

/// The project database together with its change queue, opaque to the
/// verifier.
#[verifier::external_type_specification]
#[verifier::external_body]
pub struct ExAnalysisHost(AnalysisHost);

/// For each file that the database holds, the crates that include it as a
/// module, in the order in which the database lists them. A file outside the
/// map's domain is one that the database does not hold, or one of a database
/// that holds a text too long for a syntax tree, which no query can read.
pub uninterp spec fn host_owners(host: AnalysisHost) -> Map<u32, Seq<u64>>;

/// For each crate of the database, its display name if it has one.
pub uninterp spec fn host_crate_names(host: AnalysisHost) -> Map<u64, Option<Seq<char>>>;

/// For each crate of the database and each configuration key, the values
/// that the crate's configuration enables for the key.
pub uninterp spec fn host_crate_cfg(host: AnalysisHost) -> Map<(u64, Seq<char>), Set<Seq<char>>>;

/// Calls `Analysis::crates_for` on a snapshot taken with
/// `AnalysisHost::analysis`. The method panics for a file that the database
/// does not hold, the parser for a text beyond 32-bit offsets, and
/// `FileId::from_raw` for a number above `MAX_FILE_ID`, hence the `requires`. It answers with the crates whose module tree reaches
/// the file, or with the database's account of why it abandoned the query;
/// crates are handed on as the bits of their identifiers. Nothing is
/// promised about which of the two comes back.
#[verifier::external_body]
fn query_owners(host: &AnalysisHost, file: u32) -> (out: Result<Vec<u64>, Cancelled>)
    requires
        file <= MAX_FILE_ID,
        host_owners(*host).dom().contains(file),
    ensures
        out is Ok ==> out->Ok_0@ == host_owners(*host)[file],
        out is Ok ==> forall|i: int|
            0 <= i < out->Ok_0@.len() ==> host_crate_names(*host).dom().contains(
                #[trigger] out->Ok_0@[i],
            ),
{
    let found = host.analysis().crates_for(ra_ap_vfs::FileId::from_raw(file))?;
    Ok(found.into_iter().map(|krate| krate.as_id().as_bits()).collect())
}

/// Calls `hir::Crate::display_name`, which reads the name stored with the
/// crate, and renders it with its `Display`. The crate is rebuilt from the
/// bits of its identifier; that panics for bits that are no identifier of the
/// database, hence the `requires`.
#[verifier::external_body]
fn query_display_name(host: &AnalysisHost, krate: u64) -> (out: Option<String>)
    requires
        host_crate_names(*host).dom().contains(krate),
    ensures
        out is Some <==> host_crate_names(*host)[krate] is Some,
        out is Some ==> out.unwrap()@ == host_crate_names(*host)[krate].unwrap(),
{
    let krate = Crate::from(ra_ap_ide::Crate::from_id(Id::from_bits(krate)));
    krate.display_name(host.raw_database()).map(|name| name.to_string())
}

/// Calls `hir::Crate::cfg` and `CfgOptions::get_cfg_values`, which walks a
/// hash set of the enabled options and yields the value of each one stored
/// under `key`. Each value comes once; the order is the set's, so only the
/// values as a set are stated. The `requires` is that of
/// `query_display_name`.
#[verifier::external_body]
fn query_cfg_values(host: &AnalysisHost, krate: u64, key: &str) -> (out: Vec<String>)
    requires
        host_crate_names(*host).dom().contains(krate),
    ensures
        texts(out@).no_duplicates(),
        texts(out@).to_set() == host_crate_cfg(*host)[(krate, key@)],
{
    let krate = Crate::from(ra_ap_ide::Crate::from_id(Id::from_bits(krate)));
    krate.cfg(host.raw_database()).get_cfg_values(key).map(|value| value.as_str().to_owned()).collect()
}

/// One owner of a file.
#[derive(Debug)]
pub struct CrateInfo {
    /// The crate's display name, if it has one.
    pub display_name: Option<String>,
    /// The names of the crate's enabled features, each once, in ascending
    /// order.
    pub features: Vec<String>,
}

impl CrateInfo {
    /// Whether this is the report on crate `krate` of `host`: its name, and
    /// its enabled features, each once, in ascending order.
    pub open spec fn describes(&self, host: AnalysisHost, krate: u64) -> bool {
        &&& self.display_name is Some <==> host_crate_names(host)[krate] is Some
        &&& self.display_name is Some ==> self.display_name.unwrap()@ == host_crate_names(
            host,
        )[krate].unwrap()
        &&& ascending(texts(self.features@))
        &&& texts(self.features@).no_duplicates()
        &&& texts(self.features@).to_set() == host_crate_cfg(host)[(krate, "feature"@)]
    }
}

/// Whether `infos` reports on the crates `owners` of `host`, one for one and
/// in their order.
pub open spec fn reports(infos: Seq<CrateInfo>, host: AnalysisHost, owners: Seq<u64>) -> bool {
    &&& infos.len() == owners.len()
    &&& forall|i: int| 0 <= i < infos.len() ==> (#[trigger] infos[i]).describes(host, owners[i])
}

/// Reports on each of `owners`, crates of `host`, in their order.
pub fn describe_owners(host: &AnalysisHost, owners: &Vec<u64>) -> (out: Vec<CrateInfo>)
    requires
        forall|i: int|
            0 <= i < owners@.len() ==> host_crate_names(*host).dom().contains(#[trigger] owners@[i]),
    ensures
        reports(out@, *host, owners@),
{
    let mut infos: Vec<CrateInfo> = Vec::new();
    let mut at: usize = 0;
    while at < owners.len()
        invariant
            at <= owners@.len(),
            reports(infos@, *host, owners@.take(at as int)),
            forall|i: int|
                0 <= i < owners@.len() ==> host_crate_names(*host).dom().contains(
                    #[trigger] owners@[i],
                ),
        decreases owners@.len() - at,
    {
        let krate: u64 = owners[at];
        let display_name = query_display_name(host, krate);
        let enabled = query_cfg_values(host, krate, "feature");
        let features = sort_names(enabled);
        proof {
            same_names(texts(enabled@), texts(features@));
        }
        infos.push(CrateInfo { display_name, features });
        at += 1;
    }
    assert(owners@.take(at as int) =~= owners@);
    infos
}

/// What `report_owners` makes of the database's answer.
pub open spec fn owners_reported(
    host: AnalysisHost,
    answer: Result<Vec<u64>, Interruption>,
    out: Result<Vec<CrateInfo>, BatchError>,
) -> bool {
    match answer {
        Ok(owners) => out is Ok && reports(out->Ok_0@, host, owners@),
        Err(why) => out is Err && out->Err_0.kind == ErrorKind::Cancelled && out->Err_0.detail@
            == interruption_text(why),
    }
}

/// Turns the database's answer to "which crates own this file" into the
/// result of the query: a report on each owner, in order, where it answered
/// with the owners, and a `Cancelled` failure where it gave up. An answer
/// with no owners is a success with no reports.
pub fn report_owners(host: &AnalysisHost, answer: Result<Vec<u64>, Interruption>) -> (out: Result<Vec<CrateInfo>, BatchError>)
    requires
        answer is Ok ==> forall|i: int|
            0 <= i < answer->Ok_0@.len() ==> host_crate_names(*host).dom().contains(
                #[trigger] answer->Ok_0@[i],
            ),
    ensures
        owners_reported(*host, answer, out),
{
    match answer {
        Ok(owners) => Ok(describe_owners(host, &owners)),
        Err(why) => Err(interrupted(why)),
    }
}

/// The crates that own `file`, each with its display name and its enabled
/// features, in the order in which the database lists them. A file that no
/// crate includes gives an empty list, which is a success. The one failure
/// is a query that the database abandoned, reported as `Cancelled` with the
/// reason as its message.
pub fn crates_for(host: &AnalysisHost, file: FileId) -> (out: Result<Vec<CrateInfo>, BatchError>)
    requires
        host_owners(*host).dom().contains(file@),
    ensures
        out is Ok ==> reports(out->Ok_0@, *host, host_owners(*host)[file@]),
        out is Err ==> is_interrupted(out->Err_0),
{
    match query_owners(host, file.index()) {
        Ok(owners) => report_owners(host, Ok(owners)),
        Err(cancelled) => {
            let why = interruption_of(cancelled);
            let out = report_owners(host, Err(why));
            assert(out->Err_0.detail@ == interruption_text(why));
            out
        },
    }
}

/// A report on no crates is empty: a file without owners resolves to the
/// empty list.
pub proof fn orphan_has_no_reports(infos: Seq<CrateInfo>, host: AnalysisHost)
    requires
        reports(infos, host, Seq::empty()),
    ensures
        infos.len() == 0,
        lines_of(infos) == Seq::<Seq<char>>::empty(),
{
    assert(lines_of(infos) =~= Seq::<Seq<char>>::empty());
}

/// A crate has one report: two reports on the same crate agree on the name
/// and on the list of features.
pub proof fn report_is_determined(a: CrateInfo, b: CrateInfo, host: AnalysisHost, krate: u64)
    requires
        a.describes(host, krate),
        b.describes(host, krate),
    ensures
        name_of(a) == name_of(b),
        texts(a.features@) == texts(b.features@),
{
    ascending_is_unique(texts(a.features@), texts(b.features@));
}

/// Resolution is deterministic: two reports on the same owners print the
/// same lines.
pub proof fn reports_are_determined(
    a: Seq<CrateInfo>,
    b: Seq<CrateInfo>,
    host: AnalysisHost,
    owners: Seq<u64>,
)
    requires
        reports(a, host, owners),
        reports(b, host, owners),
    ensures
        lines_of(a) == lines_of(b),
{
    assert forall|i: int| 0 <= i < a.len() implies lines_of(a)[i] == lines_of(b)[i] by {
        assert(a[i].describes(host, owners[i]));
        assert(b[i].describes(host, owners[i]));
        report_is_determined(a[i], b[i], host, owners[i]);
    }
    assert(lines_of(a) =~= lines_of(b));
}

/// The quoted `items`, separated by a comma and a space.
pub open spec fn joined(items: Seq<Seq<char>>) -> Seq<char>
    decreases items.len(),
{
    if items.len() == 0 {
        Seq::empty()
    } else if items.len() == 1 {
        debug_quoted(items[0])
    } else {
        joined(items.drop_last()) + ", "@ + debug_quoted(items.last())
    }
}

/// The line printed for a crate: its name, a colon and a space, and the list
/// of its features in square brackets.
pub open spec fn line_text(name: Option<Seq<char>>, features: Seq<Seq<char>>) -> Seq<char> {
    name_text(name) + ": ["@ + joined(features) + "]"@
}

/// The name of `info` by its characters.
pub open spec fn name_of(info: CrateInfo) -> Option<Seq<char>> {
    optional_view(info.display_name)
}

/// The line printed for `info`.
pub fn crate_line(info: &CrateInfo) -> (out: String)
    ensures
        out@ == line_text(name_of(*info), texts(info.features@)),
{
    let mut line = String::new();
    push_name(&mut line, &info.display_name);
    line.append(": [");
    let ghost head = line@;
    let ghost items = texts(info.features@);
    let mut at: usize = 0;
    while at < info.features.len()
        invariant
            at <= info.features@.len(),
            items == texts(info.features@),
            line@ == head + joined(items.take(at as int)),
        decreases info.features@.len() - at,
    {
        if at > 0 {
            line.append(", ");
        }
        line.append(debug_quote(info.features[at].as_str()).as_str());
        proof {
            let before = items.take(at as int);
            let now = items.take(at + 1);
            assert(now.drop_last() =~= before);
            assert(now.last() == items[at as int]);
            assert(items[at as int] == info.features@[at as int]@);
            if at == 0 {
                assert(before.len() == 0);
                assert(joined(now) =~= debug_quoted(items[0]));
                assert(line@ =~= head + joined(now));
            } else {
                assert(joined(now) =~= joined(before) + ", "@ + debug_quoted(now.last()));
                assert(line@ =~= head + joined(now));
            }
        }
        at += 1;
    }
    line.append("]");
    proof {
        assert(items.take(at as int) =~= items);
        assert(line@ =~= line_text(name_of(*info), items));
    }
    line
}

/// The lines for `infos`, one each and in their order.
pub open spec fn lines_of(infos: Seq<CrateInfo>) -> Seq<Seq<char>> {
    infos.map_values(|info: CrateInfo| line_text(name_of(info), texts(info.features@)))
}

/// The printed form of each report, in order.
pub fn crate_lines(infos: &Vec<CrateInfo>) -> (out: Vec<String>)
    ensures
        texts(out@) == lines_of(infos@),
{
    let mut lines: Vec<String> = Vec::new();
    let mut at: usize = 0;
    while at < infos.len()
        invariant
            at <= infos@.len(),
            lines@.len() == at,
            forall|i: int|
                0 <= i < at ==> (#[trigger] lines@[i])@ == line_text(
                    name_of(infos@[i]),
                    texts(infos@[i].features@),
                ),
        decreases infos@.len() - at,
    {
        lines.push(crate_line(&infos[at]));
        at += 1;
    }
    assert(texts(lines@) =~= lines_of(infos@));
    lines
}

/// A loaded workspace: the project database and the path table that the
/// loader filled along with it.
pub struct Workspace {
    pub host: AnalysisHost,
    pub vfs: Vfs,
}

impl Workspace {
    /// Whether the two halves agree: the database holds every file that the
    /// path table maps a path to and does not mark as excluded.
    pub open spec fn consistent(&self) -> bool {
        forall|path: Seq<char>| #[trigger]
            indexed(vfs_entries(self.vfs), path) ==> host_owners(self.host).dom().contains(
                vfs_entries(self.vfs)[path].0,
            )
    }
}

/// Resolves `path` to the crates that own it and gives one printed line per
/// crate, in the database's order.
///
/// A path that the table does not hold, or holds as excluded, is an
/// `UntrackedPath` failure, never an empty success. A path of the table
/// succeeds however many crates own its file, none included, unless the
/// database abandons the query, which is a `Cancelled` failure with the
/// reason as its message.
pub fn crate_options(ws: &Workspace, path: &AbsolutePath) -> (out: Result<Vec<String>, BatchError>)
    requires
        ws.consistent(),
    ensures
        !indexed(vfs_entries(ws.vfs), path@) ==> out is Err && out->Err_0.kind
            == ErrorKind::UntrackedPath && out->Err_0.detail@ == "Missing path in analysis"@,
        indexed(vfs_entries(ws.vfs), path@) && out is Err ==> is_interrupted(out->Err_0),
        out is Ok ==> exists|infos: Seq<CrateInfo>|
            reports(infos, ws.host, host_owners(ws.host)[vfs_entries(ws.vfs)[path@].0])
                && texts(out->Ok_0@) == #[trigger] lines_of(infos),
{
    let file = match lookup(&ws.vfs, path) {
        Ok(file) => file,
        Err(why) => {
            return Err(why);
        },
    };
    match crates_for(&ws.host, file) {
        Ok(infos) => Ok(crate_lines(&infos)),
        Err(why) => Err(why),
    }
}

} // verus!
