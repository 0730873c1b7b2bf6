use remote_manager::remotes::branch_entry_line;
use remote_manager::remotes::branches_header;
use remote_manager::remotes::filter_remote_branches;
use remote_manager::remotes::parse_remote_list;
use remote_manager::remotes::parse_upstream_remote;
use remote_manager::remotes::remote_entry_line;
use remote_manager::remotes::remotes_header;
use remote_manager::text::contains_str;
use remote_manager::text::replace_char;
use remote_manager::text::split_str;
use remote_manager::text::str_eq;
use remote_manager::text::trim_str;

#[test]
fn remote_list_reads_one_name_per_line() {
    let r = parse_remote_list("origin\nacme-xtask\n");
    assert_eq!(r, vec![String::from("origin"), String::from("acme-xtask")]);
}

#[test]
fn remote_list_drops_blank_lines() {
    let r = parse_remote_list("\n\norigin\n \t \n");
    assert_eq!(r, vec![String::from("origin")]);
}

#[test]
fn remote_list_trims_each_entry() {
    let r = parse_remote_list(" origin \nacme-xtask\r\n");
    assert_eq!(r, vec![String::from("origin"), String::from("acme-xtask")]);
}

#[test]
fn remote_list_of_empty_output_is_empty() {
    let r = parse_remote_list("");
    assert!(r.is_empty());
}

#[test]
fn branch_filter_keeps_only_matching_remote() {
    let out = "  acme-xtask/main\n  acme-xtask/dev\n  origin/main\n";
    let r = filter_remote_branches(out, "acme-xtask");
    assert_eq!(
        r,
        vec![
            String::from("  acme-xtask/main"),
            String::from("  acme-xtask/dev"),
        ]
    );
}

#[test]
fn branch_filter_with_no_match_is_empty() {
    let r = filter_remote_branches("  origin/main\n", "acme-xtask");
    assert!(r.is_empty());
}

#[test]
fn upstream_with_tracking_branch_names_remote() {
    let r = parse_upstream_remote("acme-xtask/main\n");
    assert_eq!(r, Some(String::from("acme-xtask")));
}

#[test]
fn upstream_of_empty_output_is_none() {
    let r = parse_upstream_remote("\n");
    assert_eq!(r, None);
}

#[test]
fn report_lines_are_tab_indented() {
    assert_eq!(remotes_header(), "\nRemotes:");
    assert_eq!(
        remote_entry_line("origin", "https://github.com/Acme/Widget"),
        "\torigin: https://github.com/Acme/Widget"
    );
    assert_eq!(
        branches_header("git@github.com:Acme/Widget.git"),
        "\nRemote branches for git@github.com:Acme/Widget.git"
    );
    assert_eq!(branch_entry_line("  acme-xtask/main"), "\t  acme-xtask/main");
}

#[test]
fn trim_removes_surrounding_whitespace() {
    assert_eq!(trim_str(" \thi there\r\n"), "hi there");
    assert_eq!(trim_str("  \n"), "");
    assert_eq!(trim_str("solid"), "solid");
    assert_eq!(trim_str("\u{0C}\u{A0}hi\u{2003}"), "hi");
}

#[test]
fn split_keeps_empty_pieces() {
    let r = split_str("a/b//c", '/');
    assert_eq!(
        r,
        vec![
            String::from("a"),
            String::from("b"),
            String::from(""),
            String::from("c"),
        ]
    );
    assert_eq!(split_str("", '/'), vec![String::from("")]);
}

#[test]
fn contains_finds_substring() {
    assert!(contains_str("ssh://github.com/x", "github.com"));
    assert!(!contains_str("ssh://gitlab.com/x", "github.com"));
    assert!(contains_str("abc", ""));
}

#[test]
fn replace_maps_every_occurrence() {
    assert_eq!(replace_char("git@github.com:Acme/W", ':', '/'), "git@github.com/Acme/W");
}

#[test]
fn str_eq_compares_characters() {
    assert!(str_eq("same", "same"));
    assert!(!str_eq("same", "Same"));
    assert!(!str_eq("same", "sam"));
}
