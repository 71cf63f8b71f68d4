use vstd::prelude::*;
use vstd::string::StringExecFns;
use crate::body::{bool_value, keys, opt_chars, opt_field};
use crate::decimal::{decimal, int_text};
use crate::endpoints::{
    REPORTS_API_URL, pair_texts, params_url_text, parse_url_with_params, url_parses,
};
use crate::text::{join_texts, joined, texts};
use crate::time::{Timestamp, rfc3339_text};

verus! {

/// Filters shared by the report endpoints. Every optional filter left unset
/// is left out of the query.
#[derive(Clone, Debug, PartialEq, Eq)]
pub struct ReportsParams {
    /// The name of the application or an email address, to get in touch with.
    pub user_agent: String,
    /// The workspace whose data is reported.
    pub workspace_id: i64,
    /// Start of the span; the service defaults to six days ago.
    pub since: Option<Timestamp>,
    /// End of the span; the service defaults to today.
    pub until: Option<Timestamp>,
    /// "yes", "no" or "both".
    pub billable: Option<String>,
    pub client_ids: Option<Vec<i64>>,
    pub project_ids: Option<Vec<i64>>,
    pub user_ids: Option<Vec<i64>>,
    /// Limits `user_ids` to the members of these groups.
    pub members_of_group_ids: Option<Vec<i64>>,
    /// Extends `user_ids` with the members of these groups.
    pub or_members_of_group_ids: Option<Vec<i64>>,
    pub tag_ids: Option<Vec<i64>>,
    pub task_ids: Option<Vec<i64>>,
    pub time_entry_ids: Option<Vec<i64>>,
    /// Matched against time entry descriptions.
    pub description: Option<String>,
    /// Leaves out the time entries without a description.
    pub without_description: Option<bool>,
    /// "date", "description", "duration" or "user" for detailed reports.
    pub order_field: Option<String>,
    /// "on" for descending, "off" for ascending order.
    pub order_desc: Option<String>,
    /// "on" or "off".
    pub distinct_rates: Option<String>,
    /// "on" or "off": rounds times as the workspace settings say.
    pub rounding: Option<String>,
    /// "decimal" or "minutes".
    pub display_hours: Option<String>,
}

/// The filters of a detailed report, with the page to fetch.
#[derive(Clone, Debug, PartialEq, Eq)]
pub struct ReportsDetailedParams {
    pub reports_params: ReportsParams,
    pub page: i64,
}

impl ReportsParams {
    /// The filters of workspace `workspace_id` for `user_agent`, with every
    /// optional filter unset.
    pub open spec fn unfiltered(self, user_agent: String, workspace_id: i64) -> bool {
        &&& self.user_agent == user_agent
        &&& self.workspace_id == workspace_id
        &&& self.since is None && self.until is None && self.billable is None
        &&& self.client_ids is None && self.project_ids is None && self.user_ids is None
        &&& self.members_of_group_ids is None && self.or_members_of_group_ids is None
        &&& self.tag_ids is None && self.task_ids is None && self.time_entry_ids is None
        &&& self.description is None && self.without_description is None
        &&& self.order_field is None && self.order_desc is None && self.distinct_rates is None
        &&& self.rounding is None && self.display_hours is None
    }

    /// The filters of one workspace with every optional filter unset.
    pub fn new(user_agent: String, workspace_id: i64) -> (r: ReportsParams)
        ensures
            r.unfiltered(user_agent, workspace_id),
    {
        ReportsParams {
            user_agent,
            workspace_id,
            since: None,
            until: None,
            billable: None,
            client_ids: None,
            project_ids: None,
            user_ids: None,
            members_of_group_ids: None,
            or_members_of_group_ids: None,
            tag_ids: None,
            task_ids: None,
            time_entry_ids: None,
            description: None,
            without_description: None,
            order_field: None,
            order_desc: None,
            distinct_rates: None,
            rounding: None,
            display_hours: None,
        }
    }
}

pub open spec fn text_param(v: Option<String>) -> Option<Seq<char>> {
    opt_chars(v)
}

pub open spec fn int_param(n: i64) -> Option<Seq<char>> {
    Some(decimal(n as int))
}

pub open spec fn bool_param(v: Option<bool>) -> Option<Seq<char>> {
    match v {
        Some(b) => Some(bool_value(b)),
        None => None,
    }
}

/// An instant is sent as its ISO 8601 text.
pub open spec fn time_param(v: Option<Timestamp>) -> Option<Seq<char>> {
    match v {
        Some(t) => Some(rfc3339_text(t.secs_spec(), t.nanos_spec())),
        None => None,
    }
}

/// The decimal ids joined with commas.
pub open spec fn ids_value(ids: Seq<i64>) -> Seq<char> {
    joined(ids.map_values(|n: i64| decimal(n as int)), ","@)
}

pub open spec fn ids_param(v: Option<Vec<i64>>) -> Option<Seq<char>> {
    match v {
        Some(ids) => Some(ids_value(ids@)),
        None => None,
    }
}

/// The query of a detailed report: the shared filters and the page side by
/// side in one namespace, in the order of their names, each unset filter left
/// out.
pub open spec fn report_query(p: ReportsDetailedParams) -> Seq<(Seq<char>, Seq<char>)> {
    let f = p.reports_params;
    opt_field("billable"@, text_param(f.billable)) + opt_field("client_ids"@, ids_param(f.client_ids))
        + opt_field("description"@, text_param(f.description))
        + opt_field("display_hours"@, text_param(f.display_hours))
        + opt_field("distinct_rates"@, text_param(f.distinct_rates))
        + opt_field("members_of_group_ids"@, ids_param(f.members_of_group_ids))
        + opt_field("or_members_of_group_ids"@, ids_param(f.or_members_of_group_ids))
        + opt_field("order_desc"@, text_param(f.order_desc))
        + opt_field("order_field"@, text_param(f.order_field))
        + opt_field("page"@, int_param(p.page))
        + opt_field("project_ids"@, ids_param(f.project_ids))
        + opt_field("rounding"@, text_param(f.rounding))
        + opt_field("since"@, time_param(f.since))
        + opt_field("tag_ids"@, ids_param(f.tag_ids))
        + opt_field("task_ids"@, ids_param(f.task_ids))
        + opt_field("time_entry_ids"@, ids_param(f.time_entry_ids))
        + opt_field("until"@, time_param(f.until))
        + opt_field("user_agent"@, Some(f.user_agent@))
        + opt_field("user_ids"@, ids_param(f.user_ids))
        + opt_field("without_description"@, bool_param(f.without_description))
        + opt_field("workspace_id"@, int_param(f.workspace_id))
}

/// Adds a query pair where a value is present.
fn add_pair(
    out: &mut Vec<(String, String)>,
    pairs: Ghost<Seq<(Seq<char>, Seq<char>)>>,
    key: &str,
    value: Option<String>,
) -> (r: Ghost<Seq<(Seq<char>, Seq<char>)>>)
    requires
        pair_texts(old(out)@) == pairs@,
    ensures
        r@ == pairs@ + opt_field(key@, opt_chars(value)),
        pair_texts(final(out)@) == r@,
{
    let ghost added = pairs@ + opt_field(key@, opt_chars(value));
    let ghost before = out@;
    match value {
        Some(v) => {
            let k = String::from_str(key);
            let ghost kv = (k@, v@);
            out.push((k, v));
            assert(pair_texts(out@) =~= pair_texts(before).push(kv));
            assert(added =~= pairs@.push(kv));
        },
        None => {
            assert(added =~= pairs@);
        },
    }
    Ghost(added)
}

fn text_value(v: &Option<String>) -> (r: Option<String>)
    ensures
        opt_chars(r) == text_param(*v),
{
    match v {
        Some(s) => Some(s.clone()),
        None => None,
    }
}

fn bool_value_text(v: Option<bool>) -> (r: Option<String>)
    ensures
        opt_chars(r) == bool_param(v),
{
    match v {
        Some(true) => Some(String::from_str("true")),
        Some(false) => Some(String::from_str("false")),
        None => None,
    }
}

fn time_value_text(v: &Option<Timestamp>) -> (r: Option<String>)
    ensures
        opt_chars(r) == time_param(*v),
{
    match v {
        Some(t) => Some(t.to_rfc3339()),
        None => None,
    }
}

/// The ids in decimal, joined with commas.
pub fn ids_text(ids: &Vec<i64>) -> (r: String)
    ensures
        r@ == ids_value(ids@),
{
    let mut parts: Vec<String> = Vec::new();
    let mut i: usize = 0;
    while i < ids.len()
        invariant
            i <= ids@.len(),
            texts(parts@) =~= ids@.subrange(0, i as int).map_values(|n: i64| decimal(n as int)),
        decreases ids@.len() - i,
    {
        let ghost before = parts@;
        let d = int_text(ids[i]);
        parts.push(d);
        proof {
            let done = ids@.subrange(0, i as int);
            let next = ids@.subrange(0, i + 1);
            assert(next =~= done.push(ids@[i as int]));
            assert(texts(parts@) =~= texts(before).push(d@));
        }
        i = i + 1;
    }
    assert(ids@.subrange(0, ids@.len() as int) =~= ids@);
    join_texts(&parts, ",")
}

fn ids_value_text(v: &Option<Vec<i64>>) -> (r: Option<String>)
    ensures
        opt_chars(r) == ids_param(*v),
{
    match v {
        Some(ids) => Some(ids_text(ids)),
        None => None,
    }
}

impl ReportsDetailedParams {
    /// The filters of one workspace, every optional one unset, at page `page`.
    pub fn new(user_agent: String, workspace_id: i64, page: i64) -> (r: ReportsDetailedParams)
        ensures
            r.reports_params.unfiltered(user_agent, workspace_id),
            r.page == page,
    {
        ReportsDetailedParams { reports_params: ReportsParams::new(user_agent, workspace_id), page }
    }

    /// The query pairs of the report request, as `report_query` gives them.
    pub fn query_pairs(&self) -> (r: Vec<(String, String)>)
        ensures
            pair_texts(r@) == report_query(*self),
    {
        let f = &self.reports_params;
        let mut out: Vec<(String, String)> = Vec::new();
        assert(pair_texts(out@) =~= Seq::empty());
        let g = add_pair(&mut out, Ghost(Seq::empty()), "billable", text_value(&f.billable));
        assert(g@ =~= opt_field("billable"@, text_param(f.billable)));
        let g = add_pair(&mut out, g, "client_ids", ids_value_text(&f.client_ids));
        let g = add_pair(&mut out, g, "description", text_value(&f.description));
        let g = add_pair(&mut out, g, "display_hours", text_value(&f.display_hours));
        let g = add_pair(&mut out, g, "distinct_rates", text_value(&f.distinct_rates));
        let g = add_pair(&mut out, g, "members_of_group_ids", ids_value_text(&f.members_of_group_ids));
        let g = add_pair(
            &mut out,
            g,
            "or_members_of_group_ids",
            ids_value_text(&f.or_members_of_group_ids),
        );
        let g = add_pair(&mut out, g, "order_desc", text_value(&f.order_desc));
        let g = add_pair(&mut out, g, "order_field", text_value(&f.order_field));
        let g = add_pair(&mut out, g, "page", Some(int_text(self.page)));
        let g = add_pair(&mut out, g, "project_ids", ids_value_text(&f.project_ids));
        let g = add_pair(&mut out, g, "rounding", text_value(&f.rounding));
        let g = add_pair(&mut out, g, "since", time_value_text(&f.since));
        let g = add_pair(&mut out, g, "tag_ids", ids_value_text(&f.tag_ids));
        let g = add_pair(&mut out, g, "task_ids", ids_value_text(&f.task_ids));
        let g = add_pair(&mut out, g, "time_entry_ids", ids_value_text(&f.time_entry_ids));
        let g = add_pair(&mut out, g, "until", time_value_text(&f.until));
        let g = add_pair(&mut out, g, "user_agent", Some(f.user_agent.clone()));
        let g = add_pair(&mut out, g, "user_ids", ids_value_text(&f.user_ids));
        let g = add_pair(&mut out, g, "without_description", bool_value_text(f.without_description));
        let g = add_pair(&mut out, g, "workspace_id", Some(int_text(f.workspace_id)));
        assert(g@ == report_query(*self));
        out
    }

    /// The URL of the detailed report: the endpoint with the pairs of
    /// `report_query` as its query, form-encoded; `None` only where the
    /// endpoint is not a valid URL.
    pub fn to_url(&self) -> (r: Option<String>)
        ensures
            r is Some <==> url_parses(REPORTS_API_URL@),
            r matches Some(t) ==> t@ == params_url_text(REPORTS_API_URL@, report_query(*self)),
    {
        let pairs = self.query_pairs();
        parse_url_with_params(REPORTS_API_URL, &pairs)
    }
}

/// Unset filters are left out of a report's query: with every optional filter
/// unset, the query names only the page, the user agent and the workspace.
pub proof fn unset_filters_are_omitted(p: ReportsDetailedParams, user_agent: String, workspace_id: i64)
    requires
        p.reports_params.unfiltered(user_agent, workspace_id),
    ensures
        keys(report_query(p)) == seq!["page"@, "user_agent"@, "workspace_id"@],
{
    assert(keys(report_query(p)) =~= seq!["page"@, "user_agent"@, "workspace_id"@]);
}

} // verus!
