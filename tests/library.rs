use tracklist::check::{
    build_report, check_targets, collect_report, CheckError, CheckResult, Outcome, Verdict,
};
use tracklist::cli::{Action, ToolError, DEFAULT_MANIFEST, DEFAULT_OUTPUT};
use tracklist::manifest::{song_url, Manifest, Song};
use tracklist::render::render;

fn song(name: &str, path: &str) -> Song {
    Song::new(name.to_string(), path.to_string())
}

fn ok(url: &str) -> CheckResult {
    CheckResult { url: url.to_string(), outcome: Outcome::Success }
}

fn failed(url: &str, reason: &str) -> CheckResult {
    CheckResult { url: url.to_string(), outcome: Outcome::Failure(reason.to_string()) }
}

#[test]
fn url_is_prefix_then_path() {
    assert_eq!(song_url("http://host/", "a.mp3"), "http://host/a.mp3");
    assert_eq!(song_url("", "a.mp3"), "a.mp3");
}

#[test]
fn url_has_no_separator_added() {
    assert_eq!(song_url("http://host", "a.mp3"), "http://hosta.mp3");
    assert_eq!(song_url("http://host/", ""), "http://host/");
}

#[test]
fn default_manifest_is_empty() {
    let m = Manifest::default();
    assert_eq!(m.title, "");
    assert_eq!(m.prefix, "");
    assert!(m.songs.is_empty());
}

#[test]
fn add_appends_after_existing_tracks() {
    let mut m = Manifest::new("T".to_string(), "p/".to_string(), vec![song("one", "1.mp3")]);
    m.add(song("two", "2.mp3"));
    m.add(song("one", "1.mp3"));
    assert_eq!(m.title, "T");
    assert_eq!(m.prefix, "p/");
    assert_eq!(m.songs, vec![song("one", "1.mp3"), song("two", "2.mp3"), song("one", "1.mp3")]);
}

#[test]
fn render_empty_manifest() {
    let m = Manifest::new("Mix".to_string(), "".to_string(), vec![]);
    assert_eq!(render(&m), "<html><head><title>Mix</title></head><body class=\"dark\"></body></html>");
}

#[test]
fn render_one_track_exactly() {
    let m = Manifest::new("Mix".to_string(), "http://host/".to_string(), vec![song("Intro", "a.mp3")]);
    assert_eq!(
        render(&m),
        "<html><head><title>Mix</title></head><body class=\"dark\">\
         <div><h3>Intro</h3><audio class=\"track\" controls=\"controls\">\
         <source src=\"http://host/a.mp3\"></audio></div></body></html>"
    );
}

#[test]
fn render_has_one_player_per_track_in_order() {
    let m = Manifest::new(
        "Album".to_string(),
        "https://cdn/".to_string(),
        vec![song("first", "1.mp3"), song("second", "2.mp3"), song("third", "3.mp3")],
    );
    let page = render(&m);
    assert_eq!(page.matches("<audio ").count(), 3);
    assert_eq!(page.matches("<source ").count(), 3);
    assert!(page.contains("<title>Album</title>"));
    let a = page.find("<h3>first</h3>").unwrap();
    let b = page.find("<h3>second</h3>").unwrap();
    let c = page.find("<h3>third</h3>").unwrap();
    assert!(a < b && b < c);
    assert!(page.contains("src=\"https://cdn/2.mp3\""));
}

#[test]
fn render_escapes_text_and_urls() {
    let m = Manifest::new(
        "Tom & Jerry <live>".to_string(),
        "http://h/?a=1&b=".to_string(),
        vec![song("\"Quote\" 'n' roll", "x.mp3")],
    );
    let page = render(&m);
    assert!(page.contains("<title>Tom &amp; Jerry &lt;live&gt;</title>"));
    assert!(page.contains("<h3>&quot;Quote&quot; &#39;n&#39; roll</h3>"));
    assert!(page.contains("src=\"http://h/?a=1&amp;b=x.mp3\""));
}

#[test]
fn targets_follow_tracks() {
    let m = Manifest::new(
        "T".to_string(),
        "http://host/".to_string(),
        vec![song("a", "a.mp3"), song("empty", ""), song("a", "a.mp3")],
    );
    let ts = check_targets(&m);
    assert_eq!(ts.len(), 3);
    assert_eq!(ts[0].name, "a");
    assert_eq!(ts[0].url, "http://host/a.mp3");
    assert_eq!(ts[1].name, "empty");
    assert_eq!(ts[1].url, "http://host/");
    assert_eq!(ts[2].url, "http://host/a.mp3");
}

#[test]
fn mixed_results_fail_and_name_each_failure() {
    let results = vec![
        ok("http://h/1"),
        failed("http://h/2", "404 Not Found"),
        ok("http://h/3"),
        failed("http://h/4", "timeout"),
    ];
    let report = build_report(results.clone());
    assert_eq!(report.results, results);
    assert_eq!(report.overall, Verdict::Fail);
    assert_eq!(report.failed_urls(), vec!["http://h/2".to_string(), "http://h/4".to_string()]);
    assert_eq!(report.exit_code(), 1);
}

#[test]
fn zero_tracks_pass() {
    let report = build_report(vec![]);
    assert_eq!(report.overall, Verdict::Pass);
    assert!(report.failed_urls().is_empty());
    assert_eq!(report.exit_code(), 0);
}

#[test]
fn all_reachable_pass() {
    let report = build_report(vec![ok("a"), ok("a")]);
    assert_eq!(report.overall, Verdict::Pass);
    assert_eq!(report.exit_code(), 0);
}

#[test]
fn collect_keeps_order_of_finished_probes() {
    let joined = vec![Some(failed("x", "dns")), Some(ok("y"))];
    let report = collect_report(&joined).unwrap();
    assert_eq!(report.results, vec![failed("x", "dns"), ok("y")]);
    assert_eq!(report.overall, Verdict::Fail);
    assert_eq!(report.failed_urls(), vec!["x".to_string()]);
}

#[test]
fn collect_of_no_probes_passes() {
    let report = collect_report(&vec![]).unwrap();
    assert!(report.results.is_empty());
    assert_eq!(report.overall, Verdict::Pass);
}

#[test]
fn aborted_probe_is_an_infrastructure_failure() {
    let joined = vec![Some(ok("y")), None, Some(failed("x", "dns"))];
    assert_eq!(collect_report(&joined), Err(CheckError::InfrastructureFailure));
}

#[test]
fn outcome_kinds() {
    assert!(!Outcome::Success.is_failure());
    assert!(Outcome::Failure("500".to_string()).is_failure());
    assert_eq!(failed("u", "r").duplicate(), failed("u", "r"));
}

#[test]
fn action_names_its_manifest() {
    let a = Action::Generate { manifest: "m.json".to_string(), output: DEFAULT_OUTPUT.to_string() };
    assert_eq!(a.manifest(), "m.json");
    let b = Action::Add {
        manifest: DEFAULT_MANIFEST.to_string(),
        name: "n".to_string(),
        path: "p".to_string(),
    };
    assert_eq!(b.manifest(), "tracks.json");
    assert_eq!(Action::Template { manifest: "t.json".to_string() }.manifest(), "t.json");
}

#[test]
fn error_messages() {
    assert_eq!(ToolError::NotFound.message(), "Failed to open manifest");
    assert_eq!(ToolError::ParseError.message(), "Failed to read manifest");
    assert_eq!(ToolError::CheckInfrastructureFailure.message(), "Failed to join the check tasks");
}
