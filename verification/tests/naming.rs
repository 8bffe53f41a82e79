use node_rs::naming::{build_dir, repo_name, repo_outdir};

#[test]
fn name_drops_git_suffix() {
    assert_eq!(repo_name("https://example.com/proj.git"), Some("proj".to_string()));
}

#[test]
fn name_without_suffix_is_what_follows_the_last_slash() {
    assert_eq!(repo_name("https://example.com/group/tool"), Some("tool".to_string()));
    assert_eq!(repo_name("a/b"), Some("b".to_string()));
}

#[test]
fn url_without_slash_has_no_name() {
    assert_eq!(repo_name("proj.git"), None);
    assert_eq!(repo_name(""), None);
}

#[test]
fn url_ending_in_slash_has_empty_name() {
    assert_eq!(repo_name("https://example.com/"), Some(String::new()));
    assert_eq!(repo_name("/"), Some(String::new()));
}

#[test]
fn name_that_is_only_the_suffix_is_empty() {
    assert_eq!(repo_name("host/.git"), Some(String::new()));
}

#[test]
fn git_inside_the_name_stays() {
    assert_eq!(repo_name("https://example.com/a.github"), Some("a.github".to_string()));
    assert_eq!(repo_name("https://example.com/x.git.bak"), Some("x.git.bak".to_string()));
}

#[test]
fn git_before_the_last_slash_is_not_a_suffix() {
    assert_eq!(repo_name("https://host/x.git/foo"), Some("foo".to_string()));
}

#[test]
fn only_one_suffix_is_dropped() {
    assert_eq!(repo_name("h/p.git.git"), Some("p.git".to_string()));
}

#[test]
fn short_names_keep_their_letters() {
    assert_eq!(repo_name("h/git"), Some("git".to_string()));
    assert_eq!(repo_name("h/.gi"), Some(".gi".to_string()));
}

#[test]
fn name_counts_characters_not_bytes() {
    assert_eq!(repo_name("https://exämple.com/prüf.git"), Some("prüf".to_string()));
    assert_eq!(repo_name("ü/日本語"), Some("日本語".to_string()));
}

#[test]
fn outdir_is_name_slash_rev() {
    assert_eq!(repo_outdir("proj", "abc123"), "proj/abc123");
    assert_eq!(repo_outdir("", "r"), "/r");
    assert_eq!(repo_outdir("n", ""), "n/");
}

#[test]
fn outdir_is_deterministic() {
    assert_eq!(repo_outdir("proj", "v1.0"), repo_outdir("proj", "v1.0"));
}

#[test]
fn build_dir_lies_in_the_checkout() {
    assert_eq!(build_dir("proj/abc123"), "proj/abc123/build");
}

#[test]
fn chars_are_listed_in_order() {
    assert_eq!(node_rs::text::chars_of("a/é"), vec!['a', '/', 'é']);
    assert!(node_rs::text::chars_of("").is_empty());
}
