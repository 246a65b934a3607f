use mihomo_tui::github::latest_release_api_url_from_repo;

#[test]
fn github_repository_maps_to_latest_release_api_url() {
    let cases = vec![
        (
            "https://github.com/potoo0/mihomo-tui",
            Some("https://api.github.com/repos/potoo0/mihomo-tui/releases/latest"),
        ),
        ("MetaCubeX/mihomo", Some("https://api.github.com/repos/MetaCubeX/mihomo/releases/latest")),
        (
            "https://github.com/potoo0/mihomo-tui.git",
            Some("https://api.github.com/repos/potoo0/mihomo-tui/releases/latest"),
        ),
        ("https://gitlab.com/potoo0/mihomo-tui", None),
    ];

    for (repository, expected) in cases {
        assert_eq!(latest_release_api_url_from_repo(repository), expected.map(str::to_owned));
    }
}

#[test]
fn repository_with_surrounding_space_and_trailing_slash() {
    assert_eq!(
        latest_release_api_url_from_repo("  https://github.com/a/b/  "),
        Some("https://api.github.com/repos/a/b/releases/latest".to_owned())
    );
}

#[test]
fn repository_needs_exactly_owner_and_name() {
    assert_eq!(latest_release_api_url_from_repo("only-owner"), None);
    assert_eq!(latest_release_api_url_from_repo("a/b/c"), None);
    assert_eq!(latest_release_api_url_from_repo("/b"), None);
    assert_eq!(latest_release_api_url_from_repo(""), None);
}
