use genact::composer::{gen_package_version, u64_to_decimal, Composer, ComposerText};
use genact::docker_image_rm::{DockerImageRm, DockerText};
use genact::engine::{ScriptRunner, Style};
use genact::module::{Module, PlanInputs};

fn composer_fixture() -> Composer {
    Composer {
        text: ComposerText {
            loading_repos: "Loading composer repositories with package information".to_string(),
            updating_deps: "Updating dependencies (including require-dev)".to_string(),
            installing: "Installing".to_string(),
            loading_cache: "Loading from cache".to_string(),
            writing_lock: "Writing lock file".to_string(),
            generating_autoload: "Generating autoload files".to_string(),
        },
    }
}

fn docker_fixture() -> DockerImageRm {
    DockerImageRm {
        text: DockerText { untagged: "Untagged".to_string(), deleted: "Deleted".to_string() },
    }
}

#[test]
fn test_decimal_rendering_exact() {
    assert_eq!(u64_to_decimal(0), "0");
    assert_eq!(u64_to_decimal(7), "7");
    assert_eq!(u64_to_decimal(10), "10");
    assert_eq!(u64_to_decimal(105), "105");
    assert_eq!(u64_to_decimal(99040), "99040");
}

#[test]
fn test_package_version_exact() {
    assert_eq!(gen_package_version(1, 23, 0), "1.23.0");
    assert_eq!(gen_package_version(0, 0, 0), "0.0.0");
    assert_eq!(gen_package_version(12, 4, 107), "12.4.107");
}

#[test]
fn test_module_names_and_signatures() {
    let c = composer_fixture();
    assert_eq!(c.name(), "composer");
    assert_eq!(c.signature(), "composer install");
    let d = docker_fixture();
    assert_eq!(d.name(), "docker_image_rm");
    assert_eq!(d.signature(), "docker image rm 04880416f1bf");
}

#[test]
fn test_composer_plan_three_packages() {
    let c = composer_fixture();
    let inputs = PlanInputs {
        candidates: vec![
            "psr/log".to_string(),
            "monolog/monolog".to_string(),
            "symfony/console".to_string(),
            "guzzlehttp/guzzle".to_string(),
            "phpunit/phpunit".to_string(),
        ],
        tags: vec![],
        count: 3,
        clustered: vec![1, 2, 3, 10, 0, 4, 0, 0, 1],
    };
    let script = c.plan(&inputs);
    assert_eq!(script.stages.len(), 5);

    // Fixed preamble, two lines.
    let pre = &script.stages[0];
    assert!(!pre.checks_exit);
    assert_eq!(pre.lines.len(), 2);
    assert_eq!(pre.lines[0].spans[0].text, c.text.loading_repos);
    assert_eq!(pre.lines[1].spans[0].text, c.text.updating_deps);

    // Exactly three package lines, versions fixed by the clustered samples.
    let expected_versions = ["1.2.3", "10.0.4", "0.0.1"];
    let mut names: Vec<String> = Vec::new();
    for i in 0..3 {
        let st = &script.stages[i + 1];
        assert!(st.checks_exit);
        assert!((100..2000).contains(&st.delay));
        assert_eq!(st.lines.len(), 1);
        let spans = &st.lines[0].spans;
        assert_eq!(spans.len(), 8);
        assert_eq!(spans[0].text, "  - ");
        assert_eq!(spans[1].text, c.text.installing);
        assert_eq!(spans[3].style, Style::Green);
        assert!(inputs.candidates.contains(&spans[3].text));
        assert_eq!(spans[5].style, Style::Yellow);
        assert_eq!(spans[5].text, expected_versions[i]);
        // A three-component dot-separated numeric version.
        let parts: Vec<&str> = spans[5].text.split('.').collect();
        assert_eq!(parts.len(), 3);
        for p in parts {
            assert!(!p.is_empty() && p.chars().all(|ch| ch.is_ascii_digit()));
        }
        assert_eq!(spans[7].text, c.text.loading_cache);
        names.push(spans[3].text.clone());
    }
    // No duplicate package names.
    for i in 0..names.len() {
        for j in i + 1..names.len() {
            assert_ne!(names[i], names[j]);
        }
    }

    // Fixed closing sequence, two lines.
    let post = &script.stages[4];
    assert!(!post.checks_exit);
    assert_eq!(post.lines.len(), 2);
    assert_eq!(post.lines[0].spans[0].text, c.text.writing_lock);
    assert_eq!(post.lines[1].spans[0].text, c.text.generating_autoload);
}

#[test]
fn test_docker_plan_one_image() {
    let d = docker_fixture();
    let inputs = PlanInputs {
        candidates: vec!["library/nginx".to_string()],
        tags: vec!["latest".to_string(), "stable".to_string()],
        count: 1,
        clustered: vec![],
    };
    let script = d.plan(&inputs);
    assert_eq!(script.stages.len(), 1);
    let st = &script.stages[0];
    assert!(st.checks_exit);
    assert!((500..5000).contains(&st.delay));
    // Two header lines, then 10 to 30 deletion lines.
    assert!(st.lines.len() >= 12 && st.lines.len() < 32);

    let untag = &st.lines[0].spans;
    assert_eq!(untag.len(), 5);
    assert_eq!(untag[0].text, "Untagged");
    assert_eq!(untag[1].text, ": ");
    assert_eq!(untag[2].text, "library/nginx");
    assert_eq!(untag[3].text, ":");
    assert!(inputs.tags.contains(&untag[4].text));

    let digest_untag = &st.lines[1].spans;
    assert_eq!(digest_untag.len(), 7);
    assert_eq!(digest_untag[2].text, untag[2].text);
    assert_eq!(digest_untag[4].text, untag[4].text);
    assert_eq!(digest_untag[5].text, "@sha256:");

    let mut digests: Vec<String> = vec![digest_untag[6].text.clone()];
    for line in &st.lines[2..] {
        let spans = &line.spans;
        assert_eq!(spans.len(), 3);
        assert_eq!(spans[0].text, "Deleted");
        assert_eq!(spans[1].text, ": sha256:");
        digests.push(spans[2].text.clone());
    }
    for digest in &digests {
        assert_eq!(digest.len(), 64);
        for ch in digest.chars() {
            assert!(ch.is_ascii_hexdigit() && !ch.is_ascii_uppercase());
        }
    }
    // Each digest distinct.
    for i in 0..digests.len() {
        for j in i + 1..digests.len() {
            assert_ne!(digests[i], digests[j]);
        }
    }
}

#[test]
fn test_docker_cancel_mid_run_stops_before_next_header() {
    let d = docker_fixture();
    let inputs = PlanInputs {
        candidates: vec!["library/nginx".to_string(), "library/redis".to_string()],
        tags: vec!["latest".to_string()],
        count: 2,
        clustered: vec![],
    };
    let script = d.plan(&inputs);
    assert_eq!(script.stages.len(), 2);
    let mut runner = ScriptRunner::new(script);
    let mut emitted: Vec<usize> = Vec::new();
    // The host emits image 0; the signal arrives during its layer-deletion
    // output and is observed at the per-image checkpoint.
    if let Some(i) = runner.advance(false) {
        emitted.push(i);
    }
    assert_eq!(runner.advance(true), None);
    assert_eq!(runner.advance(false), None);
    // Image 1's header was never handed out.
    assert_eq!(emitted, vec![0]);
}
