use wrangler::generate::{
    generate, generate_project_name, next_project_name, project_type, write_project_name,
    ProjectType,
};
use wrangler::global_user::{GlobalConfig, GlobalUser};

fn config_named(next: &str) -> GlobalConfig {
    GlobalConfig {
        global_user: GlobalUser::TokenAuth {
            api_token: "tok".to_string(),
        },
        next_default_project: next.to_string(),
    }
}

#[test]
fn sequencer_appends_one_to_fresh_name() {
    assert_eq!(next_project_name("worker"), "worker-1");
    assert_eq!(next_project_name("release"), "release-1");
}

#[test]
fn sequencer_increments_numeric_tail() {
    assert_eq!(next_project_name("worker-1"), "worker-2");
    assert_eq!(next_project_name("my-app-9"), "my-app-10");
    assert_eq!(next_project_name("v2-release-3"), "v2-release-4");
}

#[test]
fn sequencer_keeps_non_numeric_tail_whole() {
    assert_eq!(next_project_name("a-b-c"), "a-b-c-1");
}

#[test]
fn sequencer_chains_like_a_pure_function() {
    let once = next_project_name("x");
    let twice = next_project_name(&once);
    let thrice = next_project_name(&twice);
    assert_eq!(thrice, "x-3");
    // The same input always maps to the same output.
    assert_eq!(next_project_name("x"), once);
}

#[test]
fn sequencer_edge_cases() {
    assert_eq!(next_project_name(""), "-1");
    assert_eq!(next_project_name("5"), "6");
    assert_eq!(next_project_name("a-"), "a--1");
    // A tail too large for a 32-bit parse counts as non-numeric.
    assert_eq!(next_project_name("big-9999999999"), "big-9999999999-1");
}

#[test]
fn generate_project_name_reads_the_config() {
    assert_eq!(generate_project_name(&config_named("worker-41")), "worker-42");
}

#[test]
fn write_project_name_advances_and_keeps_identity() {
    let config = config_named("worker");
    let next = write_project_name(&config);
    assert_eq!(next.next_default_project, "worker-1");
    assert_eq!(next.global_user, config.global_user);
}

#[test]
fn project_type_guessed_from_template() {
    assert_eq!(project_type("rustwasm-worker"), ProjectType::Rust);
    assert_eq!(project_type("worker-template"), ProjectType::Webpack);
}

#[test]
fn generate_plans_the_tool_invocation() {
    let plan = generate("blog", "https://github.com/user/rust-template", None);
    assert_eq!(
        plan.tool_args,
        vec![
            "generate".to_string(),
            "--git".to_string(),
            "https://github.com/user/rust-template".to_string(),
            "--name".to_string(),
            "blog".to_string(),
            "--force".to_string(),
        ]
    );
    assert_eq!(plan.project_type, ProjectType::Rust);
    let forced = generate("blog", "rust-template", Some(ProjectType::Webpack));
    assert_eq!(forced.project_type, ProjectType::Webpack);
}
