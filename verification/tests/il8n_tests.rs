use auto_backup::il8n::load_data;
use auto_backup::il8n::Lang;
use auto_backup::il8n::Translator;
use auto_backup::text::chars_of;
use auto_backup::text::chain;
use auto_backup::text::join;
use auto_backup::text::split;

fn pair(k: &str, v: &str) -> (String, String) {
    (k.to_string(), v.to_string())
}

#[test]
fn language_files_are_named_after_the_language() {
    assert_eq!(Lang::En.file(), "en.lang");
    assert_eq!(Lang::Cn.file(), "zh-cn.lang");
}

#[test]
fn split_cuts_at_every_separator() {
    assert_eq!(split("a:b:c", ":"), vec!["a", "b", "c"]);
    assert_eq!(split("a\r\nb", "\r\n"), vec!["a", "b"]);
}

#[test]
fn split_keeps_empty_pieces() {
    assert_eq!(split("", ":"), vec![""]);
    assert_eq!(split(":", ":"), vec!["", ""]);
    assert_eq!(split("a::b:", ":"), vec!["a", "", "b", ""]);
}

#[test]
fn split_does_not_overlap_separators() {
    assert_eq!(split("aaa", "aa"), vec!["", "a"]);
    assert_eq!(split("a\r\r\nb\n", "\r\n"), vec!["a\r", "b\n"]);
}

#[test]
fn split_without_a_separator_is_one_piece() {
    assert_eq!(split("abc", ":"), vec!["abc"]);
    assert_eq!(split("abc", ""), vec!["abc"]);
    assert_eq!(split("ab", "abc"), vec!["ab"]);
}

#[test]
fn split_counts_characters_not_bytes() {
    assert_eq!(split("名称:备份", ":"), vec!["名称", "备份"]);
    assert_eq!(split("名称。备份。", "。"), vec!["名称", "备份", ""]);
}

#[test]
fn split_agrees_with_the_standard_library() {
    for text in ["", "a", "a:b", "::", "a:b:c:", "名:称", "x\r\ny\r\n", "\r\n\r\n"] {
        for sep in [":", "\r\n", "ab", "称"] {
            let want: Vec<String> = text.split(sep).map(|s| s.to_string()).collect();
            assert_eq!(split(text, sep), want);
        }
    }
}

#[test]
fn chars_of_lists_the_characters() {
    assert_eq!(chars_of("a名b"), vec!['a', '名', 'b']);
    assert!(chars_of("").is_empty());
}

#[test]
fn join_and_chain() {
    assert_eq!(join(&vec![], "\n"), "");
    assert_eq!(join(&vec!["a".to_string()], "\n"), "a");
    assert_eq!(join(&vec!["a".to_string(), "".to_string(), "c".to_string()], ", "), "a, , c");
    assert_eq!(chain("ab", "cd"), "abcd");
}

#[test]
fn load_data_reads_one_entry_per_line() {
    let got = load_data("Home:首页\r\nManage:管理\r\nplain\r\na:b:c");
    assert_eq!(
        got,
        vec![pair("Home", "首页"), pair("Manage", "管理"), pair("plain", ""), pair("a", "b")]
    );
}

#[test]
fn load_data_of_an_empty_file_has_one_blank_entry() {
    assert_eq!(load_data(""), vec![pair("", "")]);
}

#[test]
fn load_data_splits_lines_at_carriage_return_line_feed_only() {
    assert_eq!(load_data("a:1\nb:2"), vec![pair("a", "1\nb")]);
}

#[test]
fn a_new_translator_translates_nothing() {
    let t = Translator::default();
    assert_eq!(t.lang(), Lang::Cn);
    assert_eq!(t.get("Home"), "Home");
    assert_eq!(t.get(""), "");
}

#[test]
fn get_gives_the_translation() {
    let mut t = Translator::default();
    t.change(&Lang::Cn, "Home:首页\r\nManage:管理");
    assert_eq!(t.get("Home"), "首页");
    assert_eq!(t.get("Manage"), "管理");
    assert_eq!(t.get("Setting"), "Setting");
}

#[test]
fn get_gives_the_text_where_the_translation_is_empty() {
    let mut t = Translator::default();
    t.change(&Lang::En, "Home:\r\nManage");
    assert_eq!(t.lang(), Lang::En);
    assert_eq!(t.get("Home"), "Home");
    assert_eq!(t.get("Manage"), "Manage");
}

#[test]
fn a_later_line_replaces_an_earlier_one() {
    let mut t = Translator::default();
    t.change(&Lang::Cn, "Home:一\r\nHome:二");
    assert_eq!(t.get("Home"), "二");
    t.change(&Lang::Cn, "Home:一\r\nHome:");
    assert_eq!(t.get("Home"), "Home");
}

#[test]
fn change_replaces_the_whole_table() {
    let mut t = Translator::default();
    t.change(&Lang::Cn, "Home:首页");
    t.change(&Lang::En, "Manage:Manage it");
    assert_eq!(t.get("Home"), "Home");
    assert_eq!(t.get("Manage"), "Manage it");
}
