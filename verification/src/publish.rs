//! The publish pipeline: manifest validation, then a state machine that
//! gates build, upload and the conditional exposure steps. The pipeline
//! decides; the caller performs each requested action (build, HTTP calls)
//! and hands the outcome back.

use vstd::prelude::*;
use crate::global_user::{GlobalUser, GlobalUserView};
use crate::text::dec_of;
use crate::text::u64_to_dec;

verus! {

/// One key-value-store binding of the manifest.
pub struct KvNamespace {
    pub binding: String,
    pub id: String,
}

#[verifier::ext_equal]
pub struct KvNamespaceView {
    pub binding: Seq<char>,
    pub id: Seq<char>,
}

impl View for KvNamespace {
    type V = KvNamespaceView;

    open spec fn view(&self) -> KvNamespaceView {
        KvNamespaceView { binding: self.binding@, id: self.id@ }
    }
}

impl Clone for KvNamespace {
    fn clone(&self) -> (res: Self)
        ensures
            res == *self,
    {
        KvNamespace { binding: self.binding.clone(), id: self.id.clone() }
    }
}

/// The project manifest: the deployable unit's description, read-only input
/// to the pipeline.
pub struct Project {
    pub account_id: String,
    pub name: String,
    pub zone_id: Option<String>,
    pub route: Option<String>,
    pub kv_namespaces: Option<Vec<KvNamespace>>,
    pub private: Option<bool>,
}

#[verifier::ext_equal]
pub struct ProjectView {
    pub account_id: Seq<char>,
    pub name: Seq<char>,
    pub zone_id: Option<Seq<char>>,
    pub route: Option<Seq<char>>,
    pub kv_namespaces: Option<Seq<KvNamespaceView>>,
    pub private: Option<bool>,
}

pub open spec fn opt_str_view(o: Option<String>) -> Option<Seq<char>> {
    match o {
        Some(s) => Some(s@),
        None => None,
    }
}

impl View for Project {
    type V = ProjectView;

    open spec fn view(&self) -> ProjectView {
        ProjectView {
            account_id: self.account_id@,
            name: self.name@,
            zone_id: opt_str_view(self.zone_id),
            route: opt_str_view(self.route),
            kv_namespaces: match self.kv_namespaces {
                Some(v) => Some(v@.map_values(|kv: KvNamespace| kv@)),
                None => None,
            },
            private: self.private,
        }
    }
}

fn clone_kv_vec(v: &Vec<KvNamespace>) -> (r: Vec<KvNamespace>)
    ensures
        r@ == v@,
{
    let mut r: Vec<KvNamespace> = Vec::new();
    let mut i: usize = 0;
    while i < v.len()
        invariant
            i <= v.len(),
            r@ == v@.take(i as int),
        decreases v.len() - i,
    {
        r.push(v[i].clone());
        proof {
            assert(r@ =~= v@.take(i + 1));
        }
        i = i + 1;
    }
    proof {
        assert(v@.take(v@.len() as int) =~= v@);
    }
    r
}

impl Clone for Project {
    fn clone(&self) -> (res: Self)
        ensures
            res@ == self@,
    {
        let res = Project {
            account_id: self.account_id.clone(),
            name: self.name.clone(),
            zone_id: self.zone_id.clone(),
            route: self.route.clone(),
            kv_namespaces: match &self.kv_namespaces {
                Some(v) => Some(clone_kv_vec(v)),
                None => None,
            },
            private: self.private,
        };
        proof {
            assert(res@ =~= self@);
        }
        res
    }
}

/// Whether the manifest opts out of public exposure.
pub open spec fn is_private(p: ProjectView) -> bool {
    p.private == Some(true)
}

/// An optional field that counts as missing: absent, or present but empty.
pub open spec fn opt_empty(o: Option<Seq<char>>) -> bool {
    match o {
        Some(s) => s.len() == 0,
        None => true,
    }
}

/// The missing-field reports of one key-value-store binding, one per empty
/// sub-field, never deduplicated.
pub open spec fn kv_entry_missing(kv: KvNamespaceView) -> Seq<Seq<char>> {
    (if kv.binding.len() == 0 {
        seq!["kv-namespace binding"@]
    } else {
        Seq::empty()
    }) + (if kv.id.len() == 0 {
        seq!["kv-namespace id"@]
    } else {
        Seq::empty()
    })
}

pub open spec fn kv_missing(kvs: Seq<KvNamespaceView>) -> Seq<Seq<char>>
    decreases kvs.len(),
{
    if kvs.len() == 0 {
        Seq::empty()
    } else {
        kv_missing(kvs.drop_last()) + kv_entry_missing(kvs.last())
    }
}

/// Every missing required field of the manifest, in reporting order. The
/// zoned (release) mode additionally requires a zone and a route.
pub open spec fn missing_fields_spec(p: ProjectView, release: bool) -> Seq<Seq<char>> {
    (if p.account_id.len() == 0 {
        seq!["account_id"@]
    } else {
        Seq::empty()
    }) + (if p.name.len() == 0 {
        seq!["name"@]
    } else {
        Seq::empty()
    }) + (match p.kv_namespaces {
        Some(kvs) => kv_missing(kvs),
        None => Seq::empty(),
    }) + (if release {
        (if opt_empty(p.zone_id) {
            seq!["zone_id"@]
        } else {
            Seq::empty()
        }) + (if opt_empty(p.route) {
            seq!["route"@]
        } else {
            Seq::empty()
        })
    } else {
        Seq::empty()
    })
}

pub open spec fn project_valid(p: ProjectView, release: bool) -> bool {
    missing_fields_spec(p, release).len() == 0
}

/// The aggregated validation report: every missing field found in one pass.
#[derive(Debug)]
pub struct ValidationError {
    pub missing_fields: Vec<String>,
    pub release: bool,
}

#[verifier::ext_equal]
pub struct ValidationErrorView {
    pub missing_fields: Seq<Seq<char>>,
    pub release: bool,
}

impl View for ValidationError {
    type V = ValidationErrorView;

    open spec fn view(&self) -> ValidationErrorView {
        ValidationErrorView {
            missing_fields: self.missing_fields.deep_view(),
            release: self.release,
        }
    }
}

/// The quoted, comma-separated field listing inside the report message.
pub open spec fn quoted_items(fields: Seq<Seq<char>>) -> Seq<char>
    decreases fields.len(),
{
    if fields.len() == 0 {
        Seq::empty()
    } else if fields.len() == 1 {
        "\""@ + fields[0] + "\""@
    } else {
        quoted_items(fields.drop_last()) + ", "@ + "\""@ + fields.last() + "\""@
    }
}

/// Where the mode publishes to, as the report names it.
pub open spec fn destination_spec(release: bool) -> Seq<char> {
    if release {
        "a route"@
    } else {
        "your subdomain"@
    }
}

/// The report message, pluralized by the number of missing fields and naming
/// the publish destination the mode selects.
pub open spec fn validation_message_spec(fields: Seq<Seq<char>>, release: bool) -> Seq<char> {
    "Your wrangler.toml is missing the "@ + (if fields.len() >= 2 {
        "fields"@
    } else {
        "field"@
    }) + " ["@ + quoted_items(fields) + "] which "@ + (if fields.len() >= 2 {
        "are"@
    } else {
        "is"@
    }) + " required to publish to "@ + destination_spec(release) + "!"@
}

/// Pluralization of the report: exactly one missing field is spoken of as
/// "field ... is", two or more as "fields ... are".
pub proof fn lemma_message_pluralization(fields: Seq<Seq<char>>, release: bool)
    ensures
        fields.len() == 1 ==> validation_message_spec(fields, release)
            == "Your wrangler.toml is missing the "@ + "field"@ + " ["@ + quoted_items(fields)
            + "] which "@ + "is"@ + " required to publish to "@ + destination_spec(release)
            + "!"@,
        fields.len() >= 2 ==> validation_message_spec(fields, release)
            == "Your wrangler.toml is missing the "@ + "fields"@ + " ["@ + quoted_items(fields)
            + "] which "@ + "are"@ + " required to publish to "@ + destination_spec(release)
            + "!"@,
{
}

impl ValidationError {
    /// Renders the aggregated report.
    pub fn message(&self) -> (r: String)
        requires
            self.missing_fields@.len() >= 1,
        ensures
            r@ == validation_message_spec(self@.missing_fields, self@.release),
    {
        let ghost fv = self@.missing_fields;
        let mut out = String::from_str("Your wrangler.toml is missing the ");
        if self.missing_fields.len() >= 2 {
            out.append("fields");
        } else {
            out.append("field");
        }
        out.append(" [");
        let ghost head = out@;
        let mut i: usize = 0;
        while i < self.missing_fields.len()
            invariant
                i <= self.missing_fields.len(),
                fv == self@.missing_fields,
                fv.len() == self.missing_fields@.len(),
                out@ == head + quoted_items(fv.take(i as int)),
            decreases self.missing_fields.len() - i,
        {
            if i > 0 {
                out.append(", ");
            }
            out.append("\"");
            out.append(self.missing_fields[i].as_str());
            out.append("\"");
            proof {
                assert(self.missing_fields[i as int].deep_view() == fv[i as int]);
                assert(fv.take(i + 1).drop_last() =~= fv.take(i as int));
                assert(fv.take(i + 1).last() == fv[i as int]);
                if i == 0 {
                    assert(quoted_items(fv.take(1)) == "\""@ + fv[0] + "\""@);
                    assert(out@ =~= head + quoted_items(fv.take(1)));
                } else {
                    assert(quoted_items(fv.take(i + 1)) == quoted_items(fv.take(i as int)) + ", "@
                        + "\""@ + fv[i as int] + "\""@);
                    assert(out@ =~= head + quoted_items(fv.take(i + 1)));
                }
            }
            i = i + 1;
        }
        proof {
            assert(fv.take(fv.len() as int) =~= fv);
        }
        out.append("] which ");
        if self.missing_fields.len() >= 2 {
            out.append("are");
        } else {
            out.append("is");
        }
        out.append(" required to publish to ");
        if self.release {
            out.append("a route");
        } else {
            out.append("your subdomain");
        }
        out.append("!");
        proof {
            assert(out@ =~= validation_message_spec(fv, self.release));
        }
        out
    }
}

fn push_field(fields: &mut Vec<String>, name: &str)
    ensures
        final(fields).deep_view() == old(fields).deep_view().push(name@),
{
    fields.push(String::from_str(name));
    proof {
        assert(fields.deep_view() =~= old(fields).deep_view().push(name@));
    }
}

/// Checks the manifest's required fields for the given mode, accumulating
/// every missing field rather than stopping at the first.
pub fn validate_project(project: &Project, release: bool) -> (r: Result<(), ValidationError>)
    ensures
        r is Ok <==> project_valid(project@, release),
        r matches Err(e) ==> e@.missing_fields == missing_fields_spec(project@, release)
            && e@.release == release && e@.missing_fields.len() >= 1,
{
    let ghost pv = project@;
    let mut missing_fields: Vec<String> = Vec::new();
    proof {
        assert(missing_fields.deep_view() =~= Seq::<Seq<char>>::empty());
    }
    if project.account_id.as_str().is_empty() {
        push_field(&mut missing_fields, "account_id");
    }
    if project.name.as_str().is_empty() {
        push_field(&mut missing_fields, "name");
    }
    let ghost part_base = (if pv.account_id.len() == 0 {
        seq!["account_id"@]
    } else {
        Seq::<Seq<char>>::empty()
    }) + (if pv.name.len() == 0 {
        seq!["name"@]
    } else {
        Seq::<Seq<char>>::empty()
    });
    proof {
        assert(missing_fields.deep_view() =~= part_base);
    }
    match &project.kv_namespaces {
        Some(kv_namespaces) => {
            let ghost kvs = pv.kv_namespaces.unwrap();
            proof {
                assert(kvs.len() == kv_namespaces@.len());
            }
            let mut i: usize = 0;
            while i < kv_namespaces.len()
                invariant
                    i <= kv_namespaces.len(),
                    kvs.len() == kv_namespaces@.len(),
                    forall|j: int|
                        0 <= j < kvs.len() ==> kvs[j] == #[trigger] kv_namespaces@[j]@,
                    missing_fields.deep_view() == part_base + kv_missing(kvs.take(i as int)),
                decreases kv_namespaces.len() - i,
            {
                let ghost before = missing_fields.deep_view();
                let kv = &kv_namespaces[i];
                proof {
                    assert(kvs[i as int] == kv_namespaces@[i as int]@);
                }
                if kv.binding.as_str().is_empty() {
                    push_field(&mut missing_fields, "kv-namespace binding");
                }
                if kv.id.as_str().is_empty() {
                    push_field(&mut missing_fields, "kv-namespace id");
                }
                proof {
                    assert(missing_fields.deep_view() =~= before + kv_entry_missing(
                        kvs[i as int],
                    ));
                    assert(kvs.take(i + 1).drop_last() =~= kvs.take(i as int));
                    assert(kvs.take(i + 1).last() == kvs[i as int]);
                    assert(kv_missing(kvs.take(i + 1)) == kv_missing(kvs.take(i as int))
                        + kv_entry_missing(kvs[i as int]));
                    assert(missing_fields.deep_view() =~= part_base + kv_missing(kvs.take(i + 1)));
                }
                i = i + 1;
            }
            proof {
                assert(kvs.take(kvs.len() as int) =~= kvs);
            }
        },
        None => {},
    }
    let ghost part_kv = part_base + (match pv.kv_namespaces {
        Some(kvs) => kv_missing(kvs),
        None => Seq::<Seq<char>>::empty(),
    });
    proof {
        assert(missing_fields.deep_view() =~= part_kv);
    }
    if release {
        let zone_missing = match &project.zone_id {
            Some(z) => z.as_str().is_empty(),
            None => true,
        };
        if zone_missing {
            push_field(&mut missing_fields, "zone_id");
        }
        let route_missing = match &project.route {
            Some(rt) => rt.as_str().is_empty(),
            None => true,
        };
        if route_missing {
            push_field(&mut missing_fields, "route");
        }
    }
    proof {
        assert(missing_fields.deep_view() =~= missing_fields_spec(pv, release));
    }
    if missing_fields.len() == 0 {
        Ok(())
    } else {
        Err(ValidationError { missing_fields, release })
    }
}


/// Why the pipeline stopped, per stage.
#[derive(Debug)]
pub enum PublishError {
    /// The manifest failed validation; nothing was built or sent.
    Validation { error: ValidationError },
    /// The external build collaborator failed; nothing was uploaded.
    Build { detail: String },
    /// The upload was answered with a non-2xx status.
    Upload { status: u16, detail: String },
    /// Subdomain or route provisioning failed after a completed upload: the
    /// artifact is live but not exposed.
    Provisioning { status: u16, detail: String },
}

#[verifier::ext_equal]
pub enum PublishErrorView {
    Validation { error: ValidationErrorView },
    Build { detail: Seq<char> },
    Upload { status: u16, detail: Seq<char> },
    Provisioning { status: u16, detail: Seq<char> },
}

impl View for PublishError {
    type V = PublishErrorView;

    open spec fn view(&self) -> PublishErrorView {
        match self {
            PublishError::Validation { error } => PublishErrorView::Validation { error: error@ },
            PublishError::Build { detail } => PublishErrorView::Build { detail: detail@ },
            PublishError::Upload { status, detail } => PublishErrorView::Upload {
                status: *status,
                detail: detail@,
            },
            PublishError::Provisioning { status, detail } => PublishErrorView::Provisioning {
                status: *status,
                detail: detail@,
            },
        }
    }
}

pub open spec fn status_message_spec(status: u16, detail: Seq<char>) -> Seq<char> {
    "Something went wrong! Status: "@ + dec_of(status as int) + ", Details "@ + detail
}

pub open spec fn publish_error_message_spec(e: PublishErrorView) -> Seq<char> {
    match e {
        PublishErrorView::Validation { error } => validation_message_spec(
            error.missing_fields,
            error.release,
        ),
        PublishErrorView::Build { detail } => detail,
        PublishErrorView::Upload { status, detail } => status_message_spec(status, detail),
        PublishErrorView::Provisioning { status, detail } => status_message_spec(status, detail),
    }
}

fn status_message(status: u16, detail: &String) -> (r: String)
    ensures
        r@ == status_message_spec(status, detail@),
{
    let mut out = String::from_str("Something went wrong! Status: ");
    let st = u64_to_dec(status as u64);
    out.append(st.as_str());
    out.append(", Details ");
    out.append(detail.as_str());
    out
}

impl PublishError {
    /// Renders the operator-facing report, carrying the HTTP status and
    /// response body where the failure has them.
    pub fn message(&self) -> (r: String)
        requires
            self matches PublishError::Validation { error } ==> error.missing_fields@.len() >= 1,
        ensures
            r@ == publish_error_message_spec(self@),
    {
        match self {
            PublishError::Validation { error } => error.message(),
            PublishError::Build { detail } => detail.clone(),
            PublishError::Upload { status, detail } => status_message(*status, detail),
            PublishError::Provisioning { status, detail } => status_message(*status, detail),
        }
    }
}

/// The only success signal any remote call gives.
pub open spec fn is_2xx(status: u16) -> bool {
    200 <= status < 300
}

/// Where the pipeline stands: what it needs the caller to do next, or how
/// it ended.
pub enum Stage {
    NeedBuild,
    NeedUpload,
    NeedSubdomain,
    NeedEnable { subdomain: String },
    NeedRoute,
    Complete { message: String },
    Failed { error: PublishError },
}

#[verifier::ext_equal]
pub enum StageView {
    NeedBuild,
    NeedUpload,
    NeedSubdomain,
    NeedEnable { subdomain: Seq<char> },
    NeedRoute,
    Complete { message: Seq<char> },
    Failed { error: PublishErrorView },
}

impl View for Stage {
    type V = StageView;

    open spec fn view(&self) -> StageView {
        match self {
            Stage::NeedBuild => StageView::NeedBuild,
            Stage::NeedUpload => StageView::NeedUpload,
            Stage::NeedSubdomain => StageView::NeedSubdomain,
            Stage::NeedEnable { subdomain } => StageView::NeedEnable { subdomain: subdomain@ },
            Stage::NeedRoute => StageView::NeedRoute,
            Stage::Complete { message } => StageView::Complete { message: message@ },
            Stage::Failed { error } => StageView::Failed { error: error@ },
        }
    }
}

/// One publish invocation: the resolved identity, the manifest, the mode,
/// and where the pipeline stands.
pub struct PublishSession {
    pub user: GlobalUser,
    pub project: Project,
    pub release: bool,
    pub stage: Stage,
}

#[verifier::ext_equal]
pub struct SessionView {
    pub user: GlobalUserView,
    pub project: ProjectView,
    pub release: bool,
    pub stage: StageView,
}

impl View for PublishSession {
    type V = SessionView;

    open spec fn view(&self) -> SessionView {
        SessionView {
            user: self.user@,
            project: self.project@,
            release: self.release,
            stage: self.stage@,
        }
    }
}

impl SessionView {
    /// Stage consistency: any stage short of completion or failure implies
    /// the manifest validated, and each exposure stage implies the mode and
    /// privacy setting that select it.
    pub open spec fn inv(self) -> bool {
        match self.stage {
            StageView::NeedBuild => project_valid(self.project, self.release),
            StageView::NeedUpload => project_valid(self.project, self.release),
            StageView::NeedSubdomain => project_valid(self.project, self.release) && !self.release
                && !is_private(self.project),
            StageView::NeedEnable { .. } => project_valid(self.project, self.release)
                && !self.release && !is_private(self.project),
            StageView::NeedRoute => project_valid(self.project, self.release) && self.release,
            StageView::Complete { .. } => true,
            StageView::Failed { .. } => true,
        }
    }
}

/// Where a fresh publish invocation stands: building, or already failed
/// validation.
pub open spec fn start_stage_spec(p: ProjectView, release: bool) -> StageView {
    if project_valid(p, release) {
        StageView::NeedBuild
    } else {
        StageView::Failed {
            error: PublishErrorView::Validation {
                error: ValidationErrorView {
                    missing_fields: missing_fields_spec(p, release),
                    release,
                },
            },
        }
    }
}

pub open spec fn build_step_spec(s: SessionView, success: bool, detail: Seq<char>) -> SessionView {
    SessionView {
        stage: if success {
            StageView::NeedUpload
        } else {
            StageView::Failed { error: PublishErrorView::Build { detail } }
        },
        ..s
    }
}

pub open spec fn published_message_spec() -> Seq<char> {
    "Success! Your worker was successfully published."@
}

pub open spec fn upload_step_spec(s: SessionView, status: u16, body: Seq<char>) -> SessionView {
    SessionView {
        stage: if is_2xx(status) {
            if s.release {
                StageView::NeedRoute
            } else if is_private(s.project) {
                StageView::Complete { message: published_message_spec() }
            } else {
                StageView::NeedSubdomain
            }
        } else {
            StageView::Failed { error: PublishErrorView::Upload { status, detail: body } }
        },
        ..s
    }
}

pub open spec fn subdomain_step_spec(s: SessionView, subdomain: Seq<char>) -> SessionView {
    SessionView { stage: StageView::NeedEnable { subdomain }, ..s }
}

pub open spec fn provisioning_fail_spec(s: SessionView, status: u16, body: Seq<char>) -> SessionView {
    SessionView {
        stage: StageView::Failed {
            error: PublishErrorView::Provisioning { status, detail: body },
        },
        ..s
    }
}

/// The deterministic public URL a zoneless publish ends at.
pub open spec fn subdomain_message_spec(name: Seq<char>, subdomain: Seq<char>) -> Seq<char> {
    "Successfully made your script available at https://"@ + name + "."@ + subdomain
        + ".workers.dev"@
}

pub open spec fn enable_step_spec(s: SessionView, status: u16, body: Seq<char>) -> SessionView {
    match s.stage {
        StageView::NeedEnable { subdomain } => SessionView {
            stage: if is_2xx(status) {
                StageView::Complete {
                    message: subdomain_message_spec(s.project.name, subdomain),
                }
            } else {
                StageView::Failed {
                    error: PublishErrorView::Provisioning { status, detail: body },
                }
            },
            ..s
        },
        _ => s,
    }
}

/// The route pattern a zoned publish registers and reports.
pub open spec fn route_pattern_spec(p: ProjectView) -> Seq<char> {
    match p.route {
        Some(r) => r,
        None => Seq::empty(),
    }
}

pub open spec fn route_message_spec(pattern: Seq<char>) -> Seq<char> {
    "Success! Your worker was successfully published. You can view it at "@ + pattern + "."@
}

pub open spec fn route_step_spec(s: SessionView, status: u16, body: Seq<char>) -> SessionView {
    SessionView {
        stage: if is_2xx(status) {
            StageView::Complete { message: route_message_spec(route_pattern_spec(s.project)) }
        } else {
            StageView::Failed {
                error: PublishErrorView::Provisioning { status, detail: body },
            }
        },
        ..s
    }
}

pub open spec fn upload_url_spec(p: ProjectView) -> Seq<char> {
    "https://api.cloudflare.com/client/v4/accounts/"@ + p.account_id + "/workers/scripts/"@
        + p.name
}

pub open spec fn subdomain_url_spec(p: ProjectView) -> Seq<char> {
    "https://api.cloudflare.com/client/v4/accounts/"@ + p.account_id + "/workers/subdomain"@
}

pub open spec fn enable_url_spec(p: ProjectView) -> Seq<char> {
    upload_url_spec(p) + "/subdomain"@
}

pub open spec fn route_url_spec(p: ProjectView) -> Seq<char> {
    "https://api.cloudflare.com/client/v4/zones/"@ + (match p.zone_id {
        Some(z) => z,
        None => Seq::empty(),
    }) + "/workers/routes"@
}

/// What starting a publish invocation yields: a session to drive, or the
/// validation report.
pub type PublishOutcome = Result<PublishSession, PublishError>;

/// Starts a publish invocation: validation strictly precedes everything. A
/// manifest that fails validation yields the aggregated report and no
/// session, so no build, upload or provisioning request can be formed.
pub fn publish(user: &GlobalUser, project: &Project, release: bool) -> (r: PublishOutcome)
    ensures
        r is Ok <==> project_valid(project@, release),
        r matches Ok(s) ==> s@ == (SessionView {
            user: user@,
            project: project@,
            release,
            stage: start_stage_spec(project@, release),
        }) && s@.inv(),
        r matches Err(e) ==> (StageView::Failed { error: e@ }) == start_stage_spec(
            project@,
            release,
        ),
{
    match validate_project(project, release) {
        Ok(()) => {
            let s = PublishSession {
                user: user.clone(),
                project: project.clone(),
                release,
                stage: Stage::NeedBuild,
            };
            proof {
                assert(s@ =~~= (SessionView {
                    user: user@,
                    project: project@,
                    release,
                    stage: start_stage_spec(project@, release),
                }));
            }
            Ok(s)
        },
        Err(error) => {
            let e = PublishError::Validation { error };
            proof {
                assert(StageView::Failed { error: e@ } =~~= start_stage_spec(project@, release));
            }
            Err(e)
        },
    }
}

impl PublishSession {
    /// Records the external build collaborator's outcome: a failed build
    /// aborts the pipeline with the artifact never uploaded.
    pub fn on_build_result(&mut self, success: bool, detail: String)
        requires
            old(self).stage is NeedBuild,
            old(self)@.inv(),
        ensures
            final(self)@ == build_step_spec(old(self)@, success, detail@),
            final(self)@.inv(),
    {
        if success {
            self.stage = Stage::NeedUpload;
        } else {
            self.stage = Stage::Failed { error: PublishError::Build { detail } };
        }
        proof {
            assert(self@ =~~= build_step_spec(old(self)@, success, detail@));
        }
    }

    /// The authenticated multipart PUT target for the artifact.
    pub fn upload_url(&self) -> (r: String)
        requires
            self.stage is NeedUpload,
        ensures
            r@ == upload_url_spec(self.project@),
    {
        let mut out = String::from_str("https://api.cloudflare.com/client/v4/accounts/");
        out.append(self.project.account_id.as_str());
        out.append("/workers/scripts/");
        out.append(self.project.name.as_str());
        out
    }

    /// Records the upload response. Only a 2xx status is success; it leads
    /// to exactly one exposure path, selected by mode and privacy. Any other
    /// status is terminal and carries the status and body verbatim.
    pub fn on_upload_response(&mut self, status: u16, body: String)
        requires
            old(self).stage is NeedUpload,
            old(self)@.inv(),
        ensures
            final(self)@ == upload_step_spec(old(self)@, status, body@),
            final(self)@.inv(),
    {
        if 200 <= status && status < 300 {
            if self.release {
                self.stage = Stage::NeedRoute;
            } else {
                let private = match self.project.private {
                    Some(p) => p,
                    None => false,
                };
                if private {
                    self.stage = Stage::Complete {
                        message: String::from_str(
                            "Success! Your worker was successfully published.",
                        ),
                    };
                } else {
                    self.stage = Stage::NeedSubdomain;
                }
            }
        } else {
            self.stage = Stage::Failed { error: PublishError::Upload { status, detail: body } };
        }
        proof {
            assert(self@ =~~= upload_step_spec(old(self)@, status, body@));
        }
    }

    /// The registration endpoint for the account's subdomain reservation.
    pub fn subdomain_url(&self) -> (r: String)
        requires
            self.stage is NeedSubdomain,
        ensures
            r@ == subdomain_url_spec(self.project@),
    {
        let mut out = String::from_str("https://api.cloudflare.com/client/v4/accounts/");
        out.append(self.project.account_id.as_str());
        out.append("/workers/subdomain");
        out
    }

    /// Records the resolved (or freshly reserved) subdomain name.
    pub fn on_subdomain_fetched(&mut self, subdomain: String)
        requires
            old(self).stage is NeedSubdomain,
            old(self)@.inv(),
        ensures
            final(self)@ == subdomain_step_spec(old(self)@, subdomain@),
            final(self)@.inv(),
    {
        self.stage = Stage::NeedEnable { subdomain };
        proof {
            assert(self@ =~~= subdomain_step_spec(old(self)@, subdomain@));
        }
    }

    /// Records a failed subdomain reservation: terminal, after the upload
    /// already succeeded.
    pub fn on_subdomain_error(&mut self, status: u16, body: String)
        requires
            old(self).stage is NeedSubdomain,
            old(self)@.inv(),
        ensures
            final(self)@ == provisioning_fail_spec(old(self)@, status, body@),
            final(self)@.inv(),
    {
        self.stage = Stage::Failed {
            error: PublishError::Provisioning { status, detail: body },
        };
        proof {
            assert(self@ =~~= provisioning_fail_spec(old(self)@, status, body@));
        }
    }

    /// The subdomain-enablement endpoint of the uploaded script.
    pub fn enable_url(&self) -> (r: String)
        requires
            self.stage matches Stage::NeedEnable { .. },
        ensures
            r@ == enable_url_spec(self.project@),
    {
        let mut out = String::from_str("https://api.cloudflare.com/client/v4/accounts/");
        out.append(self.project.account_id.as_str());
        out.append("/workers/scripts/");
        out.append(self.project.name.as_str());
        out.append("/subdomain");
        out
    }

    /// The JSON body of the enablement request.
    pub fn enable_body(&self) -> (r: String)
        ensures
            r@ == "{\"enabled\":true}"@,
    {
        build_subdomain_request()
    }

    /// Records the enablement response: success completes the pipeline with
    /// the deterministic public URL in the final message.
    pub fn on_enable_response(&mut self, status: u16, body: String)
        requires
            old(self).stage matches Stage::NeedEnable { .. },
            old(self)@.inv(),
        ensures
            final(self)@ == enable_step_spec(old(self)@, status, body@),
            final(self)@.inv(),
    {
        let subdomain = match &self.stage {
            Stage::NeedEnable { subdomain } => subdomain.clone(),
            _ => String::new(),
        };
        if 200 <= status && status < 300 {
            let mut message = String::from_str(
                "Successfully made your script available at https://",
            );
            message.append(self.project.name.as_str());
            message.append(".");
            message.append(subdomain.as_str());
            message.append(".workers.dev");
            self.stage = Stage::Complete { message };
        } else {
            self.stage = Stage::Failed {
                error: PublishError::Provisioning { status, detail: body },
            };
        }
        proof {
            assert(self@ =~~= enable_step_spec(old(self)@, status, body@));
        }
    }

    /// The zone-scoped route registration endpoint.
    pub fn route_url(&self) -> (r: String)
        requires
            self.stage is NeedRoute,
            self@.inv(),
        ensures
            r@ == route_url_spec(self.project@),
    {
        proof {
            assert(!opt_empty(self.project@.zone_id));
        }
        let z = self.project.zone_id.as_ref().unwrap();
        let mut out = String::from_str("https://api.cloudflare.com/client/v4/zones/");
        out.append(z.as_str());
        out.append("/workers/routes");
        out
    }

    /// The route pattern registered for a zoned publish, from the manifest.
    pub fn route_pattern(&self) -> (r: String)
        requires
            self.stage is NeedRoute,
            self@.inv(),
        ensures
            r@ == route_pattern_spec(self.project@),
            r@.len() > 0,
    {
        proof {
            assert(!opt_empty(self.project@.route));
        }
        self.project.route.as_ref().unwrap().clone()
    }

    /// Records the route registration response: success completes the
    /// pipeline with the route pattern in the final message; failure is
    /// terminal and distinct from any pre-upload failure.
    pub fn on_route_response(&mut self, status: u16, body: String)
        requires
            old(self).stage is NeedRoute,
            old(self)@.inv(),
        ensures
            final(self)@ == route_step_spec(old(self)@, status, body@),
            final(self)@.inv(),
    {
        if 200 <= status && status < 300 {
            proof {
                assert(!opt_empty(self.project@.route));
            }
            let pattern = self.project.route.as_ref().unwrap();
            let mut message = String::from_str(
                "Success! Your worker was successfully published. You can view it at ",
            );
            message.append(pattern.as_str());
            message.append(".");
            self.stage = Stage::Complete { message };
        } else {
            self.stage = Stage::Failed {
                error: PublishError::Provisioning { status, detail: body },
            };
        }
        proof {
            assert(self@ =~~= route_step_spec(old(self)@, status, body@));
        }
    }
}

/// Relies on serde_json::Value::to_string: the one-entry object holding
/// `true` under the key "enabled" serialises to exactly this text.
#[verifier::external_body]
pub(crate) fn build_subdomain_request() -> (r: String)
    ensures
        r@ == "{\"enabled\":true}"@,
{
    let mut body = serde_json::Map::new();
    body.insert("enabled".to_string(), serde_json::Value::Bool(true));
    serde_json::Value::Object(body).to_string()
}

/// Stages from which the pipeline still asks the caller for a provisioning
/// call (subdomain reservation or enablement, or route registration).
pub open spec fn awaits_provisioning(st: StageView) -> bool {
    st is NeedSubdomain || st matches StageView::NeedEnable { .. } || st is NeedRoute
}

/// A failing validation produces zero upload calls: the pipeline starts
/// failed, never at (or before) the upload stage, so no upload or
/// provisioning request is ever formed for an invalid manifest.
pub proof fn lemma_failed_validation_blocks_upload(p: ProjectView, release: bool)
    requires
        !project_valid(p, release),
    ensures
        start_stage_spec(p, release) matches StageView::Failed { error }
            && error matches PublishErrorView::Validation { .. },
        !(start_stage_spec(p, release) is NeedUpload),
        !awaits_provisioning(start_stage_spec(p, release)),
{
}

/// A failing upload produces zero provisioning calls: a non-2xx upload
/// response is terminal, and the resulting stage awaits no subdomain or
/// route work.
pub proof fn lemma_failed_upload_blocks_provisioning(s: SessionView, status: u16, body: Seq<char>)
    requires
        s.stage is NeedUpload,
        !is_2xx(status),
    ensures
        upload_step_spec(s, status, body).stage matches StageView::Failed { error } && error
            == (PublishErrorView::Upload { status, detail: body }),
        !awaits_provisioning(upload_step_spec(s, status, body).stage),
{
}

/// Mode selects exactly one exposure path: a release session never awaits
/// subdomain work, and a zoneless one never awaits a route.
pub proof fn lemma_mode_selects_one_exposure(s: SessionView)
    requires
        s.inv(),
    ensures
        s.release ==> !(s.stage is NeedSubdomain || s.stage matches StageView::NeedEnable { .. }),
        !s.release ==> !(s.stage is NeedRoute),
{
}


} // verus!
