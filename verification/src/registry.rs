//! The registry operations on derivation records: the request each operation
//! puts on the wire, the deletion selectors with their single-axis wildcard,
//! local filtering for a wildcard delete, and the per-record and aggregate
//! reports a delete produces.

use vstd::prelude::*;

verus! {

use vstd::string::StringExecFns;
use vstd::utf8::encode_utf8;
use crate::json::{json_string_chars, json_string};
use crate::transport::{TransportClient, ParsedResponse, request_chars};

/// A derivation record: a named, branch-scoped pointer at a content-addressed
/// build artifact. The registry is authoritative; a client value of this type
/// is transient. The timestamp is seconds since the Unix epoch.
#[derive(Debug)]
pub struct Deriv {
    pub id: Option<i32>,
    pub name: String,
    pub store_hash: String,
    pub branch: String,
    pub force: Option<bool>,
    pub date_added: Option<i64>,
}

impl Clone for Deriv {
    fn clone(&self) -> (r: Self)
        ensures
            r == *self,
    {
        Deriv {
            id: self.id,
            name: self.name.clone(),
            store_hash: self.store_hash.clone(),
            branch: self.branch.clone(),
            force: self.force,
            date_added: self.date_added,
        }
    }
}

/// The JSON carrying only a record's identity: the shape sent for an exact
/// delete and for a resolve, where every other field is empty or null.
pub open spec fn identity_payload_chars(name: Seq<char>, branch: Seq<char>) -> Seq<char> {
    "{\"id\":null,\"name\":"@ + json_string_chars(name)
    + ",\"storeHash\":\"\",\"branch\":"@ + json_string_chars(branch)
    + ",\"force\":null,\"date_added\":null}"@
}

/// Builds the identity JSON for one record.
pub fn identity_payload(name: &str, branch: &str) -> (r: String)
    ensures
        r@ == identity_payload_chars(name@, branch@),
{
    let mut out = "{\"id\":null,\"name\":".to_owned();
    let jn = json_string(name);
    out.append(jn.as_str());
    out.append(",\"storeHash\":\"\",\"branch\":");
    let jb = json_string(branch);
    out.append(jb.as_str());
    out.append(",\"force\":null,\"date_added\":null}");
    proof {
        assert(out@ =~= identity_payload_chars(name@, branch@));
    }
    out
}

/// The JSON text of an optional flag.
pub open spec fn opt_bool_chars(b: Option<bool>) -> Seq<char> {
    match b {
        None => "null"@,
        Some(true) => "true"@,
        Some(false) => "false"@,
    }
}

/// Renders an optional flag as JSON.
pub fn opt_bool_json(b: Option<bool>) -> (r: &'static str)
    ensures
        r@ == opt_bool_chars(b),
{
    match b {
        None => "null",
        Some(true) => "true",
        Some(false) => "false",
    }
}

/// The JSON carrying a full upload: locator, identity, branch, flag, and the
/// timestamp text the clock supplied.
pub open spec fn upload_payload_chars(
    store_hash: Seq<char>,
    name: Seq<char>,
    branch: Seq<char>,
    force: Option<bool>,
    date_added: Seq<char>,
) -> Seq<char> {
    "{\"storeHash\":"@ + json_string_chars(store_hash)
    + ",\"name\":"@ + json_string_chars(name)
    + ",\"branch\":"@ + json_string_chars(branch)
    + ",\"force\":"@ + opt_bool_chars(force)
    + ",\"date_added\":"@ + json_string_chars(date_added) + "}"@
}

/// Builds the upload JSON for one record.
pub fn upload_payload(
    store_hash: &str,
    name: &str,
    branch: &str,
    force: Option<bool>,
    date_added: &str,
) -> (r: String)
    ensures
        r@ == upload_payload_chars(store_hash@, name@, branch@, force, date_added@),
{
    let mut out = "{\"storeHash\":".to_owned();
    let jh = json_string(store_hash);
    out.append(jh.as_str());
    out.append(",\"name\":");
    let jn = json_string(name);
    out.append(jn.as_str());
    out.append(",\"branch\":");
    let jb = json_string(branch);
    out.append(jb.as_str());
    out.append(",\"force\":");
    out.append(opt_bool_json(force));
    out.append(",\"date_added\":");
    let jd = json_string(date_added);
    out.append(jd.as_str());
    out.append("}");
    proof {
        assert(out@ =~= upload_payload_chars(store_hash@, name@, branch@, force, date_added@));
    }
    out
}

/// Which records an exact or wildcard delete selects. Exactly one axis may be
/// wildcarded; both or neither falls through to the exact form, the wildcard
/// text standing for itself.
#[derive(Debug)]
pub enum DeleteSelector {
    /// One record, by both its identity fields.
    Exact { name: String, branch: String },
    /// Every record on one branch, any name.
    ByBranch { branch: String },
    /// Every record of one name, any branch.
    ByName { name: String },
}

/// The wildcard sentinel on a delete axis.
pub open spec fn wildcard_chars() -> Seq<char> {
    "_"@
}

/// Builds the selector for a delete, from its branch and name arguments: a
/// wildcard name keeps the branch, a wildcard branch keeps the name, and any
/// other combination — the wildcard on both axes or on neither — is taken
/// exactly as written, the wildcard text standing for itself.
pub fn selector_from(branch: &String, name: &String) -> (r: DeleteSelector)
    ensures
        branch@ != wildcard_chars() && name@ == wildcard_chars()
            ==> (r matches DeleteSelector::ByBranch { branch: b } && b@ == branch@),
        branch@ == wildcard_chars() && name@ != wildcard_chars()
            ==> (r matches DeleteSelector::ByName { name: n } && n@ == name@),
        (branch@ == wildcard_chars()) == (name@ == wildcard_chars())
            ==> (r matches DeleteSelector::Exact { name: n, branch: b }
                && n@ == name@ && b@ == branch@),
{
    let wild = "_".to_owned();
    let branch_wild = *branch == wild;
    let name_wild = *name == wild;
    if !branch_wild && name_wild {
        DeleteSelector::ByBranch { branch: branch.clone() }
    } else if branch_wild && !name_wild {
        DeleteSelector::ByName { name: name.clone() }
    } else {
        DeleteSelector::Exact { name: name.clone(), branch: branch.clone() }
    }
}

/// Whether a record falls under a selector.
pub open spec fn selected(sel: DeleteSelector, d: Deriv) -> bool {
    match sel {
        DeleteSelector::Exact { name, branch } => d.name@ == name@ && d.branch@ == branch@,
        DeleteSelector::ByBranch { branch } => d.branch@ == branch@,
        DeleteSelector::ByName { name } => d.name@ == name@,
    }
}

/// The identity pairs of the records a selector picks, in record order.
pub open spec fn selected_targets(s: Seq<Deriv>, sel: DeleteSelector) -> Seq<(String, String)>
    decreases s.len(),
{
    if s.len() == 0 {
        Seq::<(String, String)>::empty()
    } else {
        selected_targets(s.drop_last(), sel)
        + (if selected(sel, s.last()) {
            seq![(s.last().name, s.last().branch)]
        } else {
            Seq::<(String, String)>::empty()
        })
    }
}

/// A wildcard delete picks exactly the records its concrete axis matches: a
/// pair is in the plan if and only if some record carries it and falls under
/// the selector.
pub proof fn lemma_selected_targets_exact(s: Seq<Deriv>, sel: DeleteSelector)
    ensures
        forall|i: int| 0 <= i < s.len() && selected(sel, s[i])
            ==> selected_targets(s, sel).contains((s[i].name, s[i].branch)),
        forall|p: (String, String)| selected_targets(s, sel).contains(p)
            ==> exists|i: int| 0 <= i < s.len() && selected(sel, s[i])
                && p == (s[i].name, s[i].branch),
        (selected_targets(s, sel).len() == 0
            <==> forall|i: int| 0 <= i < s.len() ==> !selected(sel, s[i])),
    decreases s.len(),
{
    if s.len() > 0 {
        lemma_selected_targets_exact(s.drop_last(), sel);
        let pre = selected_targets(s.drop_last(), sel);
        let all = selected_targets(s, sel);
        assert forall|i: int| 0 <= i < s.len() && selected(sel, s[i])
            implies all.contains((s[i].name, s[i].branch)) by {
            if i < s.len() - 1 {
                assert(s.drop_last()[i] == s[i]);
                assert(pre.contains((s[i].name, s[i].branch)));
                let j = choose|j: int| 0 <= j < pre.len()
                    && pre[j] == (s[i].name, s[i].branch);
                assert(all[j] == pre[j]);
            } else {
                assert(all[all.len() - 1] == (s.last().name, s.last().branch));
            }
        }
        assert forall|p: (String, String)| all.contains(p)
            implies exists|i: int| 0 <= i < s.len() && selected(sel, s[i])
                && p == (s[i].name, s[i].branch) by {
            let j = choose|j: int| 0 <= j < all.len() && all[j] == p;
            if j < pre.len() {
                assert(pre[j] == all[j]);
                assert(pre.contains(p));
                let i = choose|i: int| 0 <= i < s.drop_last().len()
                    && selected(sel, s.drop_last()[i])
                    && p == (s.drop_last()[i].name, s.drop_last()[i].branch);
                assert(s.drop_last()[i] == s[i]);
                assert(selected(sel, s[i]) && p == (s[i].name, s[i].branch));
            } else {
                assert(selected(sel, s.last()));
                assert(p == all[j]);
                assert(p == (s[s.len() - 1].name, s[s.len() - 1].branch));
                assert(selected(sel, s[s.len() - 1]));
            }
        }
    }
}

/// Lists the identity pairs of the records a selector picks, in order.
#[verifier::loop_isolation(false)]
pub fn select_targets(records: &Vec<Deriv>, sel: &DeleteSelector) -> (r: Vec<(String, String)>)
    ensures
        r@ == selected_targets(records@, *sel),
{
    let n = records.len();
    let mut out: Vec<(String, String)> = Vec::new();
    let mut i: usize = 0;
    while i < n
        invariant
            0 <= i <= n,
            n == records@.len(),
            out@ == selected_targets(records@.subrange(0, i as int), *sel),
        decreases n - i,
    {
        let d = &records[i];
        let hit: bool = match sel {
            DeleteSelector::Exact { name, branch } => d.name == *name && d.branch == *branch,
            DeleteSelector::ByBranch { branch } => d.branch == *branch,
            DeleteSelector::ByName { name } => d.name == *name,
        };
        proof {
            let pre = records@.subrange(0, i as int);
            let cur = records@.subrange(0, i + 1);
            assert(cur.drop_last() =~= pre);
            assert(cur.last() == records@[i as int]);
            assert(hit == selected(*sel, records@[i as int]));
        }
        if hit {
            out.push((d.name.clone(), d.branch.clone()));
            proof {
                assert(out@ =~= selected_targets(records@.subrange(0, i + 1), *sel));
            }
        } else {
            proof {
                assert(out@ =~= selected_targets(records@.subrange(0, i + 1), *sel));
            }
        }
        i = i + 1;
    }
    proof {
        assert(records@.subrange(0, n as int) =~= records@);
    }
    out
}

/// The report line for one delete that the server accepted.
pub open spec fn delete_ok_chars(name: Seq<char>, branch: Seq<char>, body: Seq<char>) -> Seq<char> {
    name + " on the branch "@ + branch + ": "@ + body
}

/// The report line for one delete the server refused, the server's own words
/// attached.
pub open spec fn delete_err_chars(name: Seq<char>, branch: Seq<char>, body: Seq<char>) -> Seq<char> {
    "ERROR: \""@ + name + "\" on the branch \""@ + branch + "\": "@ + body
}

/// Why a registry operation failed, server answers included.
#[derive(Debug)]
pub enum RegistryError {
    /// The server answered a non-200 status: the report line carries its
    /// words. A not-found for a record deleted once already comes out here,
    /// reported rather than crashed on.
    Refused(String),
    /// A wildcard delete matched nothing: an error, not a silent no-op.
    NoMatch(String),
}

/// The report for one exact delete: the accepted line, or the server's
/// refusal with its own words attached — a not-found on a repeated delete is
/// reported, never a crash.
pub fn delete_report(name: &String, branch: &String, res: &ParsedResponse) -> (r: Result<
    String,
    RegistryError,
>)
    ensures
        r is Ok <==> res.status.status_code == 200,
        r matches Ok(line) ==> line@ == delete_ok_chars(name@, branch@, res.body@),
        r matches Err(e) ==> (e matches RegistryError::Refused(line)
            && line@ == delete_err_chars(name@, branch@, res.body@)),
{
    if res.status.success() {
        let mut line = name.clone();
        line.append(" on the branch ");
        line.append(branch.as_str());
        line.append(": ");
        line.append(res.body.as_str());
        proof {
            assert(line@ =~= delete_ok_chars(name@, branch@, res.body@));
        }
        Ok(line)
    } else {
        let mut line = "ERROR: \"".to_owned();
        line.append(name.as_str());
        line.append("\" on the branch \"");
        line.append(branch.as_str());
        line.append("\": ");
        line.append(res.body.as_str());
        proof {
            assert(line@ =~= delete_err_chars(name@, branch@, res.body@));
        }
        Err(RegistryError::Refused(line))
    }
}

/// The message when a wildcard delete on a branch matched nothing.
pub open spec fn no_names_for_branch_chars() -> Seq<char> {
    "Failed to find any names for that branch."@
}

/// The message when a wildcard delete on a name matched nothing.
pub open spec fn no_branches_for_name_chars() -> Seq<char> {
    "Failed to find that name on any branch."@
}

/// The aggregate outcome of a wildcard delete: success as soon as any record
/// was deleted; an empty match set is an error naming the wildcarded axis,
/// not a silent no-op.
pub fn filtered_delete_summary(sel: &DeleteSelector, any_success: bool) -> (r: Result<
    (),
    RegistryError,
>)
    requires
        !(sel is Exact),
    ensures
        any_success <==> r is Ok,
        !any_success ==> (r matches Err(e) && (e matches RegistryError::NoMatch(m) && m@ == (
            if sel is ByBranch {
                no_names_for_branch_chars()
            } else {
                no_branches_for_name_chars()
            }
        ))),
{
    if any_success {
        Ok(())
    } else {
        match sel {
            DeleteSelector::ByBranch { branch: _ } => {
                Err(RegistryError::NoMatch("Failed to find any names for that branch.".to_owned()))
            },
            _ => Err(RegistryError::NoMatch("Failed to find that name on any branch.".to_owned())),
        }
    }
}

/// The registry client: each operation is one exchange over the transport,
/// with no retries at this layer.
pub struct RegistryClient {
    pub transport: TransportClient,
}

impl RegistryClient {
    /// A client speaking to one registry endpoint.
    pub fn new(transport: TransportClient) -> (r: RegistryClient)
        ensures
            r.transport == transport,
    {
        RegistryClient { transport }
    }

    /// The request that lists all records.
    pub fn list_request(&self) -> (r: String)
        ensures
            r@ == request_chars(
                "GET /derivations"@,
                self.transport.host@,
                encode_utf8("{}"@).len(),
                "{}"@,
            ),
    {
        self.transport.build_request("GET /derivations", None)
    }

    /// The request that upserts one record, its upload JSON as the body.
    pub fn upsert_request(&self, body: &str) -> (r: String)
        ensures
            r@ == request_chars(
                "POST /derivations"@,
                self.transport.host@,
                encode_utf8(body@).len(),
                body@,
            ),
    {
        self.transport.build_request("POST /derivations", Some(body))
    }

    /// The request that deletes exactly one record, by name and branch.
    pub fn delete_exact_request(&self, name: &str, branch: &str) -> (r: String)
        ensures
            r@ == request_chars(
                "DELETE /derivations/"@,
                self.transport.host@,
                encode_utf8(identity_payload_chars(name@, branch@)).len(),
                identity_payload_chars(name@, branch@),
            ),
    {
        let payload = identity_payload(name, branch);
        self.transport.build_request("DELETE /derivations/", Some(payload.as_str()))
    }

    /// The request that resolves one record, by name and branch.
    pub fn resolve_request(&self, name: &str, branch: &str) -> (r: String)
        ensures
            r@ == request_chars(
                "GET /derivations/"@,
                self.transport.host@,
                encode_utf8(identity_payload_chars(name@, branch@)).len(),
                identity_payload_chars(name@, branch@),
            ),
    {
        let payload = identity_payload(name, branch);
        self.transport.build_request("GET /derivations/", Some(payload.as_str()))
    }
}

} // verus!
