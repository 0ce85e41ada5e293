use wrangler::global_user::GlobalUser;
use wrangler::publish::{
    publish, validate_project, KvNamespace, Project, PublishError, PublishSession, Stage,
};

fn user() -> GlobalUser {
    GlobalUser::TokenAuth {
        api_token: "tok".to_string(),
    }
}

fn project(account_id: &str, name: &str) -> Project {
    Project {
        account_id: account_id.to_string(),
        name: name.to_string(),
        zone_id: None,
        route: None,
        kv_namespaces: None,
        private: None,
    }
}

fn valid_release_project() -> Project {
    Project {
        account_id: "acct".to_string(),
        name: "foo".to_string(),
        zone_id: Some("zone9".to_string()),
        route: Some("example.com/*".to_string()),
        kv_namespaces: None,
        private: None,
    }
}

/// A stub transport: counts what the driver would send, answering each
/// request with a canned status.
struct StubTransport {
    upload_calls: usize,
    provisioning_calls: usize,
    upload_status: u16,
    provisioning_status: u16,
}

impl StubTransport {
    fn new(upload_status: u16, provisioning_status: u16) -> Self {
        StubTransport {
            upload_calls: 0,
            provisioning_calls: 0,
            upload_status,
            provisioning_status,
        }
    }

    /// Drives a session the way the surrounding program would, performing
    /// each requested action against this stub.
    fn drive(&mut self, session: &mut PublishSession) {
        session.on_build_result(true, String::new());
        loop {
            match &session.stage {
                Stage::NeedUpload => {
                    let _url = session.upload_url();
                    self.upload_calls += 1;
                    session.on_upload_response(self.upload_status, "body".to_string());
                }
                Stage::NeedSubdomain => {
                    let _url = session.subdomain_url();
                    self.provisioning_calls += 1;
                    if self.provisioning_status / 100 == 2 {
                        session.on_subdomain_fetched("mysub".to_string());
                    } else {
                        session.on_subdomain_error(self.provisioning_status, "body".to_string());
                    }
                }
                Stage::NeedEnable { .. } => {
                    let _url = session.enable_url();
                    let _body = session.enable_body();
                    self.provisioning_calls += 1;
                    session.on_enable_response(self.provisioning_status, "body".to_string());
                }
                Stage::NeedRoute => {
                    let _url = session.route_url();
                    let _pattern = session.route_pattern();
                    self.provisioning_calls += 1;
                    session.on_route_response(self.provisioning_status, "body".to_string());
                }
                _ => break,
            }
        }
    }
}

#[test]
fn release_validation_reports_all_four_missing_fields() {
    let p = project("", "");
    let e = validate_project(&p, true).unwrap_err();
    assert_eq!(
        e.missing_fields,
        vec![
            "account_id".to_string(),
            "name".to_string(),
            "zone_id".to_string(),
            "route".to_string(),
        ]
    );
    assert_eq!(e.missing_fields.len(), 4);
}

#[test]
fn zoneless_validation_lists_only_account_id() {
    let p = project("", "foo");
    let e = validate_project(&p, false).unwrap_err();
    assert_eq!(e.missing_fields, vec!["account_id".to_string()]);
}

#[test]
fn kv_namespace_fields_reported_per_occurrence() {
    let mut p = project("acct", "foo");
    p.kv_namespaces = Some(vec![
        KvNamespace {
            binding: "".to_string(),
            id: "id1".to_string(),
        },
        KvNamespace {
            binding: "".to_string(),
            id: "".to_string(),
        },
    ]);
    let e = validate_project(&p, false).unwrap_err();
    assert_eq!(
        e.missing_fields,
        vec![
            "kv-namespace binding".to_string(),
            "kv-namespace binding".to_string(),
            "kv-namespace id".to_string(),
        ]
    );
}

#[test]
fn singular_missing_field_message() {
    let p = project("", "foo");
    let e = validate_project(&p, false).unwrap_err();
    assert_eq!(
        e.message(),
        "Your wrangler.toml is missing the field [\"account_id\"] which is required to publish to your subdomain!"
    );
}

#[test]
fn plural_missing_fields_message() {
    let p = project("", "");
    let e = validate_project(&p, false).unwrap_err();
    assert_eq!(
        e.message(),
        "Your wrangler.toml is missing the fields [\"account_id\", \"name\"] which are required to publish to your subdomain!"
    );
}

#[test]
fn release_message_names_the_route_destination() {
    let p = project("acct", "foo");
    let e = validate_project(&p, true).unwrap_err();
    assert_eq!(
        e.message(),
        "Your wrangler.toml is missing the fields [\"zone_id\", \"route\"] which are required to publish to a route!"
    );
}

#[test]
fn failed_validation_makes_zero_upload_calls() {
    let p = project("", "foo");
    let mut transport = StubTransport::new(200, 200);
    match publish(&user(), &p, false) {
        Ok(mut session) => {
            // Unreachable for an invalid manifest; drive it anyway so the
            // counter would catch a wrongly started pipeline.
            transport.drive(&mut session);
        }
        Err(e) => {
            assert!(matches!(e, PublishError::Validation { .. }));
        }
    }
    assert_eq!(transport.upload_calls, 0);
    assert_eq!(transport.provisioning_calls, 0);
}

#[test]
fn failed_upload_makes_zero_provisioning_calls() {
    let p = project("acct", "foo");
    let mut transport = StubTransport::new(502, 200);
    let mut session = publish(&user(), &p, false).unwrap();
    transport.drive(&mut session);
    assert_eq!(transport.upload_calls, 1);
    assert_eq!(transport.provisioning_calls, 0);
    match &session.stage {
        Stage::Failed {
            error: PublishError::Upload { status, detail },
        } => {
            assert_eq!(*status, 502);
            assert_eq!(detail, "body");
        }
        other => panic!("expected a terminal upload failure, got {:?}", stage_name(other)),
    }
}

fn stage_name(stage: &Stage) -> &'static str {
    match stage {
        Stage::NeedBuild => "NeedBuild",
        Stage::NeedUpload => "NeedUpload",
        Stage::NeedSubdomain => "NeedSubdomain",
        Stage::NeedEnable { .. } => "NeedEnable",
        Stage::NeedRoute => "NeedRoute",
        Stage::Complete { .. } => "Complete",
        Stage::Failed { .. } => "Failed",
    }
}

#[test]
fn failed_build_uploads_nothing() {
    let p = project("acct", "foo");
    let mut session = publish(&user(), &p, false).unwrap();
    session.on_build_result(false, "webpack exited with status 1".to_string());
    match &session.stage {
        Stage::Failed {
            error: PublishError::Build { detail },
        } => assert_eq!(detail, "webpack exited with status 1"),
        other => panic!("expected a build failure, got {:?}", stage_name(other)),
    }
}

#[test]
fn successful_zoneless_publish_ends_at_the_subdomain_url() {
    let p = project("acct", "foo");
    let mut transport = StubTransport::new(200, 200);
    let mut session = publish(&user(), &p, false).unwrap();
    transport.drive(&mut session);
    assert_eq!(transport.upload_calls, 1);
    // One subdomain fetch plus one enablement call.
    assert_eq!(transport.provisioning_calls, 2);
    match &session.stage {
        Stage::Complete { message } => assert_eq!(
            message,
            "Successfully made your script available at https://foo.mysub.workers.dev"
        ),
        other => panic!("expected completion, got {:?}", stage_name(other)),
    }
}

#[test]
fn private_zoneless_publish_skips_exposure() {
    let mut p = project("acct", "foo");
    p.private = Some(true);
    let mut transport = StubTransport::new(200, 200);
    let mut session = publish(&user(), &p, false).unwrap();
    transport.drive(&mut session);
    assert_eq!(transport.upload_calls, 1);
    assert_eq!(transport.provisioning_calls, 0);
    match &session.stage {
        Stage::Complete { message } => {
            assert_eq!(message, "Success! Your worker was successfully published.")
        }
        other => panic!("expected completion, got {:?}", stage_name(other)),
    }
}

#[test]
fn release_publish_registers_the_route() {
    let p = valid_release_project();
    let mut transport = StubTransport::new(200, 200);
    let mut session = publish(&user(), &p, true).unwrap();
    transport.drive(&mut session);
    assert_eq!(transport.upload_calls, 1);
    assert_eq!(transport.provisioning_calls, 1);
    match &session.stage {
        Stage::Complete { message } => assert_eq!(
            message,
            "Success! Your worker was successfully published. You can view it at example.com/*."
        ),
        other => panic!("expected completion, got {:?}", stage_name(other)),
    }
}

#[test]
fn pipeline_request_targets_are_exact() {
    let p = project("acct", "foo");
    let mut session = publish(&user(), &p, false).unwrap();
    session.on_build_result(true, String::new());
    assert_eq!(
        session.upload_url(),
        "https://api.cloudflare.com/client/v4/accounts/acct/workers/scripts/foo"
    );
    session.on_upload_response(204, String::new());
    assert_eq!(
        session.subdomain_url(),
        "https://api.cloudflare.com/client/v4/accounts/acct/workers/subdomain"
    );
    session.on_subdomain_fetched("mysub".to_string());
    assert_eq!(
        session.enable_url(),
        "https://api.cloudflare.com/client/v4/accounts/acct/workers/scripts/foo/subdomain"
    );
    assert_eq!(session.enable_body(), "{\"enabled\":true}");
}

#[test]
fn route_request_targets_are_exact() {
    let p = valid_release_project();
    let mut session = publish(&user(), &p, true).unwrap();
    session.on_build_result(true, String::new());
    session.on_upload_response(200, String::new());
    assert_eq!(
        session.route_url(),
        "https://api.cloudflare.com/client/v4/zones/zone9/workers/routes"
    );
    assert_eq!(session.route_pattern(), "example.com/*");
}

#[test]
fn failed_route_registration_is_a_provisioning_error() {
    let p = valid_release_project();
    let mut transport = StubTransport::new(200, 500);
    let mut session = publish(&user(), &p, true).unwrap();
    transport.drive(&mut session);
    assert_eq!(transport.upload_calls, 1);
    match &session.stage {
        Stage::Failed {
            error: PublishError::Provisioning { status, .. },
        } => assert_eq!(*status, 500),
        other => panic!("expected a provisioning failure, got {:?}", stage_name(other)),
    }
}

#[test]
fn upload_error_message_carries_status_and_body() {
    let e = PublishError::Upload {
        status: 502,
        detail: "bad gateway".to_string(),
    };
    assert_eq!(
        e.message(),
        "Something went wrong! Status: 502, Details bad gateway"
    );
}
