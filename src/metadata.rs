//! Source metadata: the tags that every record of one logical fetch carries.
use crate::json::{
    fields, insert_field, is_object, json_array, json_integer, json_null, json_object, json_string,
    opt_str_shape, shape, JsonShape,
};
use vstd::prelude::*;

verus! {

/// Metadata of one logical Azure DevOps fetch. Built once, then shared by
/// every record that the fetch produced.
pub struct AdoMetadata {
    pub url: String,
    pub organization: Option<String>,
    pub project: Option<String>,
    pub repo: Option<String>,
    /// The HTTP status of each page, in the order the pages came.
    pub status: Vec<u16>,
    /// `{tenant}:{url}`: the sink's routing key.
    pub source: String,
    /// The fixed label of the provider.
    pub sourcetype: String,
    pub tenant: String,
    pub record_type: String,
    pub rest_docs: String,
}

pub struct AdoMetadataView {
    pub url: Seq<char>,
    pub organization: Option<Seq<char>>,
    pub project: Option<Seq<char>>,
    pub repo: Option<Seq<char>>,
    pub status: Seq<u16>,
    pub source: Seq<char>,
    pub sourcetype: Seq<char>,
    pub tenant: Seq<char>,
    pub record_type: Seq<char>,
    pub rest_docs: Seq<char>,
}

pub open spec fn opt_text(o: Option<String>) -> Option<Seq<char>> {
    match o {
        Some(s) => Some(s@),
        None => None,
    }
}

pub open spec fn opt_str(o: Option<&str>) -> Option<Seq<char>> {
    match o {
        Some(s) => Some(s@),
        None => None,
    }
}

impl View for AdoMetadata {
    type V = AdoMetadataView;

    open spec fn view(&self) -> AdoMetadataView {
        AdoMetadataView {
            url: self.url@,
            organization: opt_text(self.organization),
            project: opt_text(self.project),
            repo: opt_text(self.repo),
            status: self.status@,
            source: self.source@,
            sourcetype: self.sourcetype@,
            tenant: self.tenant@,
            record_type: self.record_type@,
            rest_docs: self.rest_docs@,
        }
    }
}

/// The label of every Azure DevOps record.
pub open spec fn ado_sourcetype() -> Seq<char> {
    "ADO"@
}

/// The metadata of a fetch, from its inputs alone.
pub open spec fn stamped_metadata(
    tenant: Seq<char>,
    url: Seq<char>,
    organization: Option<Seq<char>>,
    project: Option<Seq<char>>,
    repo: Option<Seq<char>>,
    status: Seq<u16>,
    record_type: Seq<char>,
    rest_docs: Seq<char>,
) -> AdoMetadataView {
    AdoMetadataView {
        url,
        organization,
        project,
        repo,
        status,
        source: tenant + ":"@ + url,
        sourcetype: ado_sourcetype(),
        tenant,
        record_type,
        rest_docs,
    }
}

/// `v` is `m` written as a JSON object, one field per member, `record_type`
/// under the key `type`.
pub open spec fn metadata_json(m: AdoMetadataView, v: serde_json::Value) -> bool {
    let f = fields(v);
    &&& is_object(v)
    &&& f.dom() == set![
        "url"@,
        "organization"@,
        "project"@,
        "repo"@,
        "status"@,
        "source"@,
        "sourcetype"@,
        "tenant"@,
        "type"@,
        "rest_docs"@,
    ]
    &&& shape(f["url"@]) == JsonShape::Str(m.url)
    &&& shape(f["organization"@]) == opt_str_shape(m.organization)
    &&& shape(f["project"@]) == opt_str_shape(m.project)
    &&& shape(f["repo"@]) == opt_str_shape(m.repo)
    &&& statuses_json(m.status, f["status"@])
    &&& shape(f["source"@]) == JsonShape::Str(m.source)
    &&& shape(f["sourcetype"@]) == JsonShape::Str(m.sourcetype)
    &&& shape(f["tenant"@]) == JsonShape::Str(m.tenant)
    &&& shape(f["type"@]) == JsonShape::Str(m.record_type)
    &&& shape(f["rest_docs"@]) == JsonShape::Str(m.rest_docs)
}

/// `v` is an array of the status codes as integers, in order.
pub open spec fn statuses_json(status: Seq<u16>, v: serde_json::Value) -> bool {
    match shape(v) {
        JsonShape::Array(items) => items.len() == status.len() && forall|i: int|
            0 <= i < items.len() ==> shape(#[trigger] items[i]) == JsonShape::Number(
                Some(status[i] as int),
            ),
        _ => false,
    }
}

fn text_or_null(s: &Option<String>) -> (r: serde_json::Value)
    ensures
        shape(r) == opt_str_shape(opt_text(*s)),
{
    match s {
        Some(t) => json_string(t.clone()),
        None => json_null(),
    }
}

fn statuses_value(status: &Vec<u16>) -> (r: serde_json::Value)
    ensures
        statuses_json(status@, r),
{
    let mut items: Vec<serde_json::Value> = Vec::new();
    let mut i: usize = 0;
    while i < status.len()
        invariant
            i <= status@.len(),
            items@.len() == i,
            forall|k: int| 0 <= k < i ==> shape(#[trigger] items@[k]) == JsonShape::Number(
                Some(status@[k] as int),
            ),
        decreases status@.len() - i,
    {
        items.push(json_integer(status[i] as u64));
        i = i + 1;
    }
    json_array(items)
}

fn put(obj: &mut serde_json::Value, key: &str, value: serde_json::Value)
    requires
        is_object(*old(obj)),
    ensures
        is_object(*final(obj)),
        fields(*final(obj)) == fields(*old(obj)).insert(key@, value),
{
    insert_field(obj, String::from_str(key), value);
}

/// The keys of the metadata object differ from one another.
proof fn lemma_metadata_keys_distinct()
    ensures
        "url"@ != "organization"@,
        "url"@ != "project"@,
        "url"@ != "repo"@,
        "url"@ != "status"@,
        "url"@ != "source"@,
        "url"@ != "sourcetype"@,
        "url"@ != "tenant"@,
        "url"@ != "type"@,
        "url"@ != "rest_docs"@,
        "organization"@ != "project"@,
        "organization"@ != "repo"@,
        "organization"@ != "status"@,
        "organization"@ != "source"@,
        "organization"@ != "sourcetype"@,
        "organization"@ != "tenant"@,
        "organization"@ != "type"@,
        "organization"@ != "rest_docs"@,
        "project"@ != "repo"@,
        "project"@ != "status"@,
        "project"@ != "source"@,
        "project"@ != "sourcetype"@,
        "project"@ != "tenant"@,
        "project"@ != "type"@,
        "project"@ != "rest_docs"@,
        "repo"@ != "status"@,
        "repo"@ != "source"@,
        "repo"@ != "sourcetype"@,
        "repo"@ != "tenant"@,
        "repo"@ != "type"@,
        "repo"@ != "rest_docs"@,
        "status"@ != "source"@,
        "status"@ != "sourcetype"@,
        "status"@ != "tenant"@,
        "status"@ != "type"@,
        "status"@ != "rest_docs"@,
        "source"@ != "sourcetype"@,
        "source"@ != "tenant"@,
        "source"@ != "type"@,
        "source"@ != "rest_docs"@,
        "sourcetype"@ != "tenant"@,
        "sourcetype"@ != "type"@,
        "sourcetype"@ != "rest_docs"@,
        "tenant"@ != "type"@,
        "tenant"@ != "rest_docs"@,
        "type"@ != "rest_docs"@,
{
    reveal_strlit("url");
    reveal_strlit("organization");
    reveal_strlit("project");
    reveal_strlit("repo");
    reveal_strlit("status");
    reveal_strlit("source");
    reveal_strlit("sourcetype");
    reveal_strlit("tenant");
    reveal_strlit("type");
    reveal_strlit("rest_docs");
    assert("url"@.len() == 3);
    assert("organization"@.len() == 12);
    assert("project"@.len() == 7);
    assert("repo"@.len() == 4);
    assert("status"@.len() == 6);
    assert("source"@.len() == 6);
    assert("sourcetype"@.len() == 10);
    assert("tenant"@.len() == 6);
    assert("type"@.len() == 4);
    assert("rest_docs"@.len() == 9);
    assert("repo"@[0] != "type"@[0]);
    assert("status"@[1] != "source"@[1]);
    assert("status"@[0] != "tenant"@[0]);
    assert("source"@[0] != "tenant"@[0]);
}

impl AdoMetadata {
    pub fn new(
        tenant: &str,
        url: &str,
        organization: Option<&str>,
        project: Option<&str>,
        repo: Option<&str>,
        status: Vec<u16>,
        record_type: &str,
        rest_docs: &str,
    ) -> (r: AdoMetadata)
        ensures
            r@ == stamped_metadata(
                tenant@,
                url@,
                opt_str(organization),
                opt_str(project),
                opt_str(repo),
                status@,
                record_type@,
                rest_docs@,
            ),
    {
        let owned = |o: Option<&str>| -> (r: Option<String>)
            ensures
                opt_text(r) == opt_str(o),
            {
                match o {
                    Some(s) => Some(String::from_str(s)),
                    None => None,
                }
            };
        AdoMetadata {
            record_type: String::from_str(record_type),
            tenant: String::from_str(tenant),
            source: String::from_str(tenant).concat(":").concat(url),
            url: String::from_str(url),
            organization: owned(organization),
            project: owned(project),
            repo: owned(repo),
            status,
            sourcetype: String::from_str("ADO"),
            rest_docs: String::from_str(rest_docs),
        }
    }

    pub fn url(&self) -> (r: &str)
        ensures
            r@ == self.url@,
    {
        self.url.as_str()
    }

    /// This metadata as a JSON object, for the records' diagnostic field.
    pub fn to_json(&self) -> (r: serde_json::Value)
        ensures
            metadata_json(self@, r),
    {
        let mut obj = json_object();
        let v_url = json_string(self.url.clone());
        let ghost g_url = v_url;
        put(&mut obj, "url", v_url);
        let v_organization = text_or_null(&self.organization);
        let ghost g_organization = v_organization;
        put(&mut obj, "organization", v_organization);
        let v_project = text_or_null(&self.project);
        let ghost g_project = v_project;
        put(&mut obj, "project", v_project);
        let v_repo = text_or_null(&self.repo);
        let ghost g_repo = v_repo;
        put(&mut obj, "repo", v_repo);
        let v_status = statuses_value(&self.status);
        let ghost g_status = v_status;
        put(&mut obj, "status", v_status);
        let v_source = json_string(self.source.clone());
        let ghost g_source = v_source;
        put(&mut obj, "source", v_source);
        let v_sourcetype = json_string(self.sourcetype.clone());
        let ghost g_sourcetype = v_sourcetype;
        put(&mut obj, "sourcetype", v_sourcetype);
        let v_tenant = json_string(self.tenant.clone());
        let ghost g_tenant = v_tenant;
        put(&mut obj, "tenant", v_tenant);
        let v_type = json_string(self.record_type.clone());
        let ghost g_type = v_type;
        put(&mut obj, "type", v_type);
        let v_rest_docs = json_string(self.rest_docs.clone());
        let ghost g_rest_docs = v_rest_docs;
        put(&mut obj, "rest_docs", v_rest_docs);
        proof {
            lemma_metadata_keys_distinct();
            assert(fields(obj)["url"@] == g_url);
            assert(fields(obj)["organization"@] == g_organization);
            assert(fields(obj)["project"@] == g_project);
            assert(fields(obj)["repo"@] == g_repo);
            assert(fields(obj)["status"@] == g_status);
            assert(fields(obj)["source"@] == g_source);
            assert(fields(obj)["sourcetype"@] == g_sourcetype);
            assert(fields(obj)["tenant"@] == g_tenant);
            assert(fields(obj)["type"@] == g_type);
            assert(fields(obj)["rest_docs"@] == g_rest_docs);
            assert(fields(obj).dom() =~= set![
                "url"@,
                "organization"@,
                "project"@,
                "repo"@,
                "status"@,
                "source"@,
                "sourcetype"@,
                "tenant"@,
                "type"@,
                "rest_docs"@,
            ]);
        }
        obj
    }
}

impl Default for AdoMetadata {
    /// Metadata with every member empty.
    fn default() -> (r: AdoMetadata)
        ensures
            r@ == (AdoMetadataView {
                url: Seq::empty(),
                organization: None,
                project: None,
                repo: None,
                status: Seq::empty(),
                source: Seq::empty(),
                sourcetype: Seq::empty(),
                tenant: Seq::empty(),
                record_type: Seq::empty(),
                rest_docs: Seq::empty(),
            }),
    {
        AdoMetadata {
            url: String::new(),
            organization: None,
            project: None,
            repo: None,
            status: Vec::new(),
            source: String::new(),
            sourcetype: String::new(),
            tenant: String::new(),
            record_type: String::new(),
            rest_docs: String::new(),
        }
    }
}

/// Metadata under construction, one member at a time.
pub struct AdoMetadataBuilder {
    pub url: String,
    pub organization: Option<String>,
    pub project: Option<String>,
    pub repo: Option<String>,
    pub status: u16,
    pub source: String,
    pub sourcetype: String,
    pub tenant: String,
    pub record_type: String,
    pub rest_docs: String,
}

impl AdoMetadataBuilder {
    pub fn url(self, url: String) -> (r: AdoMetadataBuilder)
        ensures
            r == (AdoMetadataBuilder { url, ..self }),
    {
        AdoMetadataBuilder { url, ..self }
    }

    pub fn organization(self, organization: String) -> (r: AdoMetadataBuilder)
        ensures
            r == (AdoMetadataBuilder { organization: Some(organization), ..self }),
    {
        AdoMetadataBuilder { organization: Some(organization), ..self }
    }

    pub fn project(self, project: String) -> (r: AdoMetadataBuilder)
        ensures
            r == (AdoMetadataBuilder { project: Some(project), ..self }),
    {
        AdoMetadataBuilder { project: Some(project), ..self }
    }

    pub fn repo(self, repo: String) -> (r: AdoMetadataBuilder)
        ensures
            r == (AdoMetadataBuilder { repo: Some(repo), ..self }),
    {
        AdoMetadataBuilder { repo: Some(repo), ..self }
    }
}

} // verus!

verus! {

/// The stamper depends on its inputs alone: two stampings of the same inputs
/// agree in every member, hence in their JSON form, and the routing keys are
/// `{tenant}:{url}` and `ADO`, with no timestamp or random part.
pub proof fn lemma_stamper_deterministic(
    tenant: Seq<char>,
    url: Seq<char>,
    organization: Option<Seq<char>>,
    project: Option<Seq<char>>,
    repo: Option<Seq<char>>,
    status: Seq<u16>,
    record_type: Seq<char>,
    rest_docs: Seq<char>,
    first: AdoMetadata,
    second: AdoMetadata,
)
    requires
        first@ == stamped_metadata(tenant, url, organization, project, repo, status, record_type, rest_docs),
        second@ == stamped_metadata(tenant, url, organization, project, repo, status, record_type, rest_docs),
    ensures
        first@ == second@,
        first.source@ == tenant + ":"@ + url,
        first.sourcetype@ == ado_sourcetype(),
        forall|v: serde_json::Value| metadata_json(first@, v) <==> metadata_json(second@, v),
{
}

} // verus!
