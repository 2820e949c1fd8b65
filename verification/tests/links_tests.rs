use erlup::links::{bins, glob_pattern, setup_links, update_bins, Link};

fn aliases() -> Vec<&'static str> {
    vec![
        "ct_run", "dialyzer", "epmd", "erl", "erlc", "erl_call", "escript", "run_erl", "run_test",
        "to_erl", "typer",
    ]
}

fn pairs(links: &[Link]) -> Vec<(String, String)> {
    links.iter().map(|l| (l.name.clone(), l.target.clone())).collect()
}

#[test]
fn bins_are_the_eleven_fixed_aliases() {
    assert_eq!(bins(), aliases());
}

#[test]
fn refresh_of_an_empty_directory_creates_every_alias_link() {
    let r = update_bins("/usr/local/bin/erlup", &Vec::new());
    assert_eq!(r.len(), 11);
    for (i, l) in r.iter().enumerate() {
        assert_eq!(l.name, aliases()[i]);
        assert_eq!(l.target, "/usr/local/bin/erlup");
    }
}

#[test]
fn refresh_keeps_foreign_links_and_repoints_alias_links() {
    let existing = vec![
        Link { name: "unrelated".to_string(), target: "/elsewhere".to_string() },
        Link { name: "erl".to_string(), target: "/old/erlup".to_string() },
    ];
    let r = update_bins("/new/erlup", &existing);
    assert_eq!(r.len(), 12);
    assert_eq!(r[0].name, "unrelated");
    assert_eq!(r[0].target, "/elsewhere");
    let erl = r.iter().find(|l| l.name == "erl").unwrap();
    assert_eq!(erl.target, "/new/erlup");
}

#[test]
fn refresh_twice_yields_the_identical_link_set() {
    let existing = vec![
        Link { name: "keepme".to_string(), target: "/t".to_string() },
        Link { name: "escript".to_string(), target: "/stale".to_string() },
    ];
    let once = update_bins("/me/erlup", &existing);
    let twice = update_bins("/me/erlup", &once);
    assert_eq!(pairs(&once), pairs(&twice));
}

#[test]
fn install_links_skip_aliases_with_no_binary() {
    let mut found: Vec<Option<String>> = vec![None; 11];
    found[3] = Some("/c/otps/v1/dist/bin/erl".to_string());
    found[4] = Some("/c/otps/v1/dist/bin/erlc".to_string());
    let r = setup_links("/c/otps/v1", &found);
    assert_eq!(r.len(), 2);
    assert_eq!(r[0].name, "/c/otps/v1/erl");
    assert_eq!(r[0].target, "/c/otps/v1/dist/bin/erl");
    assert_eq!(r[1].name, "/c/otps/v1/erlc");
    assert_eq!(r[1].target, "/c/otps/v1/dist/bin/erlc");
}

#[test]
fn glob_pattern_points_under_dist_bin() {
    assert_eq!(glob_pattern("/c/otps/v1", "erl"), "/c/otps/v1/dist/bin/erl");
}
