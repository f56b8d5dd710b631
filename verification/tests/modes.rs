use termedit::cursor::Cursor;
use termedit::dir::{Dir, Entry};
use termedit::editor::Editor;
use termedit::mode::{Failure, Key, Mode, Request};
use termedit::normal::Normal;
use termedit::open::Open;
use termedit::write_path::{InputMode, WritePath};

fn strings(v: &[&str]) -> Vec<String> {
    v.iter().map(|s| s.to_string()).collect()
}

fn entry(name: &str, is_dir: bool) -> Entry {
    Entry { name: name.to_string(), path: format!("/base/{}", name), is_dir }
}

fn children() -> Vec<Entry> {
    vec![entry("z", false), entry("b", true), entry("y", false), entry("a", true)]
}

fn listing() -> Dir {
    Dir::new("/base".to_string(), Some("/".to_string()), children())
}

fn plain(r: Request) -> (u8, String) {
    match r {
        Request::Nothing => (0, String::new()),
        Request::List(p) => (1, p),
        Request::Load(p) => (2, p),
        Request::Save(p) => (3, p),
        Request::Quit => (4, String::new()),
    }
}

fn nothing() -> (u8, String) {
    (0, String::new())
}

fn editor() -> Editor {
    Editor::new(
        strings(&["ab", "cd"]),
        String::new(),
        "/base".to_string(),
        Some("/".to_string()),
        children(),
        80,
        24,
    )
}

#[test]
fn open_mode_moves_the_selection() {
    let mut open = Open::new();
    let mut mode = Mode::Open;
    let mut dir = listing();
    assert_eq!(plain(open.input(Key::Down, &mut mode, &mut dir)), nothing());
    assert_eq!(dir.selection(), 1);
    assert_eq!(plain(open.input(Key::Down, &mut mode, &mut dir)), nothing());
    assert_eq!(dir.selection(), 2);
    assert_eq!(plain(open.input(Key::Up, &mut mode, &mut dir)), nothing());
    assert_eq!(dir.selection(), 1);
    assert_eq!(mode, Mode::Open);
}

#[test]
fn open_mode_enter_on_a_directory_asks_to_list_it() {
    let mut open = Open::new();
    let mut mode = Mode::Open;
    let mut dir = listing();
    assert_eq!(plain(open.input(Key::Enter, &mut mode, &mut dir)), (1, "/".to_string()));
    dir.down();
    dir.down();
    assert_eq!(plain(open.input(Key::Enter, &mut mode, &mut dir)), (1, "/base/b".to_string()));
    assert_eq!(mode, Mode::Open);
    assert_eq!(dir.selection(), 2);
    assert_eq!(dir.dir_path(), "/base");
}

#[test]
fn open_mode_enter_on_the_parent_of_the_root_does_nothing() {
    let mut open = Open::new();
    let mut mode = Mode::Open;
    let mut dir = Dir::new("/".to_string(), None, children());
    assert_eq!(plain(open.input(Key::Enter, &mut mode, &mut dir)), nothing());
    assert_eq!(mode, Mode::Open);
    assert_eq!(dir.dir_path(), "/");
}

#[test]
fn open_mode_enter_on_a_file_asks_to_load_it() {
    let mut open = Open::new();
    let mut mode = Mode::Open;
    let mut dir = listing();
    for _ in 0..3 {
        dir.down();
    }
    assert_eq!(plain(open.input(Key::Enter, &mut mode, &mut dir)), (2, "/base/y".to_string()));
    assert_eq!(mode, Mode::Open);
    assert_eq!(dir.selection(), 3);
    assert_eq!(dir.path(), "");
}

#[test]
fn open_mode_loaded_file_replaces_the_document() {
    let mut open = Open::new();
    let mut mode = Mode::Open;
    let mut dir = listing();
    let mut normal = Normal::new(strings(&["old", "text"]), 80, 24);
    normal.down();
    normal.typing('x');
    open.loaded(&mut mode, &mut normal, &mut dir, "/base/y".to_string(), strings(&["new"]));
    assert_eq!(mode, Mode::Normal);
    assert_eq!(normal.buffer(), strings(&["new"]));
    assert_eq!(normal.cursor(), Cursor { x: 0, y: 0 });
    assert!(!normal.modified());
    assert_eq!(dir.path(), "/base/y");
}

#[test]
fn open_mode_cancel_leads_back_to_editing() {
    let mut open = Open::new();
    let mut mode = Mode::Open;
    let mut dir = listing();
    dir.down();
    assert_eq!(plain(open.input(Key::Ctrl('c'), &mut mode, &mut dir)), nothing());
    assert_eq!(mode, Mode::Normal);
    assert_eq!(dir.selection(), 1);
}

#[test]
fn open_mode_ignores_other_keys() {
    let mut open = Open::new();
    let mut dir = listing();
    dir.down();
    for k in [
        Key::Char('a'), Key::Char('y'), Key::Ctrl('q'), Key::Ctrl('o'), Key::Backspace, Key::Left,
        Key::Right, Key::Tab, Key::Esc, Key::Other,
    ] {
        let mut mode = Mode::Open;
        assert_eq!(plain(open.input(k, &mut mode, &mut dir)), nothing());
        assert_eq!(mode, Mode::Open);
        assert_eq!(dir.selection(), 1);
        assert_eq!(dir.dir_path(), "/base");
    }
}

#[test]
fn open_mode_listing_a_directory_resets_the_selection() {
    let mut open = Open::new();
    let mut dir = listing();
    dir.down();
    dir.down();
    open.set(&mut dir, "/base/b".to_string(), Some("/base".to_string()), vec![entry("k", false)]);
    assert_eq!(dir.selection(), 0);
    assert_eq!(dir.dir_path(), "/base/b");
    assert_eq!(dir.file_count(), 1);
    assert_eq!(dir.dir_count(), 0);
}

#[test]
fn open_mode_output_shows_title_listing_and_path() {
    let open = Open::new();
    let mut dir = listing();
    dir.down();
    let out = open.output(&dir);
    assert_eq!(out.title, "[ファイルを開く]");
    assert_eq!(out.path, "/base");
    let rows: Vec<(&str, bool)> = out.rows.iter().map(|r| (r.name.as_str(), r.underline)).collect();
    assert_eq!(rows, vec![("..", false), ("a", true), ("b", false), ("y", false), ("z", false)]);
}

#[test]
fn save_as_starts_typing_an_empty_name() {
    let w = WritePath::new("/base".to_string());
    assert_eq!(w.input_mode(), InputMode::Write);
    assert_eq!(w.path(), "");
    assert_eq!(w.cursor().x, 0);
    let out = w.output(&listing());
    assert_eq!(out.title, "[名前を付けて保存]");
    assert_eq!(out.prompt, "ファイル名を入力 > ");
    assert_eq!(out.cursor_col, 19);
    assert!(out.show_cursor);
    assert_eq!(out.msg, "/base");
    assert!(!out.warning);
    assert!(out.rows.iter().all(|r| !r.underline));
}

#[test]
fn save_as_typed_name_is_saved_on_enter() {
    let mut w = WritePath::new("/base".to_string());
    let mut mode = Mode::WritePath;
    let mut dir = listing();
    for c in "a漢.txt".chars() {
        assert_eq!(plain(w.input(Key::Char(c), &mut mode, &mut dir)), nothing());
    }
    assert_eq!(w.path(), "a漢.txt");
    assert_eq!(w.cursor().x, 7);
    assert_eq!(w.output(&dir).cursor_col, 26);
    assert_eq!(w.output(&dir).prompt, "ファイル名を入力 > a漢.txt");
    assert_eq!(plain(w.input(Key::Enter, &mut mode, &mut dir)), (3, "a漢.txt".to_string()));
    assert_eq!(mode, Mode::Normal);
    assert_eq!(w.input_mode(), InputMode::Write);
}

#[test]
fn save_as_enter_with_an_empty_name_does_nothing() {
    let mut w = WritePath::new("/base".to_string());
    let mut mode = Mode::WritePath;
    let mut dir = listing();
    assert_eq!(plain(w.input(Key::Enter, &mut mode, &mut dir)), nothing());
    assert_eq!(mode, Mode::WritePath);
    assert_eq!(w.input_mode(), InputMode::Write);
}

#[test]
fn save_as_name_is_edited_like_a_line() {
    let mut w = WritePath::new("/base".to_string());
    let mut mode = Mode::WritePath;
    let mut dir = listing();
    for c in "a漢b".chars() {
        w.input(Key::Char(c), &mut mode, &mut dir);
    }
    w.input(Key::Left, &mut mode, &mut dir);
    assert_eq!(w.cursor().x, 3);
    w.input(Key::Left, &mut mode, &mut dir);
    assert_eq!(w.cursor().x, 1);
    w.input(Key::Right, &mut mode, &mut dir);
    assert_eq!(w.cursor().x, 3);
    w.input(Key::Backspace, &mut mode, &mut dir);
    assert_eq!(w.path(), "ab");
    assert_eq!(w.cursor().x, 1);
    w.input(Key::Char('x'), &mut mode, &mut dir);
    assert_eq!(w.path(), "axb");
    assert_eq!(w.cursor().x, 2);
    w.input(Key::Right, &mut mode, &mut dir);
    w.input(Key::Right, &mut mode, &mut dir);
    assert_eq!(w.cursor().x, 3);
    for _ in 0..5 {
        w.input(Key::Backspace, &mut mode, &mut dir);
    }
    assert_eq!(w.path(), "");
    assert_eq!(w.cursor().x, 0);
    assert_eq!(dir.selection(), 0);
    assert_eq!(mode, Mode::WritePath);
}

#[test]
fn save_as_tab_switches_between_typing_and_browsing() {
    let mut w = WritePath::new("/base".to_string());
    let mut mode = Mode::WritePath;
    let mut dir = listing();
    w.input(Key::Tab, &mut mode, &mut dir);
    assert_eq!(w.input_mode(), InputMode::Select);
    assert!(!w.output(&dir).show_cursor);
    assert!(w.output(&dir).rows[0].underline);
    w.input(Key::Tab, &mut mode, &mut dir);
    assert_eq!(w.input_mode(), InputMode::Write);
    w.input(Key::Esc, &mut mode, &mut dir);
    assert_eq!(w.input_mode(), InputMode::Select);
    w.input(Key::Esc, &mut mode, &mut dir);
    assert_eq!(w.input_mode(), InputMode::Select);
}

#[test]
fn save_as_browsing_moves_the_selection_and_typing_does_not() {
    let mut w = WritePath::new("/base".to_string());
    let mut mode = Mode::WritePath;
    let mut dir = listing();
    w.input(Key::Down, &mut mode, &mut dir);
    assert_eq!(dir.selection(), 0);
    w.input(Key::Tab, &mut mode, &mut dir);
    w.input(Key::Down, &mut mode, &mut dir);
    w.input(Key::Down, &mut mode, &mut dir);
    assert_eq!(dir.selection(), 2);
    w.input(Key::Up, &mut mode, &mut dir);
    assert_eq!(dir.selection(), 1);
    w.input(Key::Char('x'), &mut mode, &mut dir);
    w.input(Key::Backspace, &mut mode, &mut dir);
    w.input(Key::Left, &mut mode, &mut dir);
    assert_eq!(w.path(), "");
    assert_eq!(dir.selection(), 1);
}

#[test]
fn save_as_enter_on_a_directory_asks_to_list_it() {
    let mut w = WritePath::new("/base".to_string());
    let mut mode = Mode::WritePath;
    let mut dir = listing();
    w.input(Key::Tab, &mut mode, &mut dir);
    assert_eq!(plain(w.input(Key::Enter, &mut mode, &mut dir)), (1, "/".to_string()));
    w.input(Key::Down, &mut mode, &mut dir);
    assert_eq!(plain(w.input(Key::Enter, &mut mode, &mut dir)), (1, "/base/a".to_string()));
    assert_eq!(w.input_mode(), InputMode::Select);
    w.set(&mut dir, "/base/a".to_string(), Some("/base".to_string()), Vec::new());
    assert_eq!(dir.dir_path(), "/base/a");
    assert_eq!(dir.selection(), 0);
    let out = w.output(&dir);
    assert_eq!(out.msg, "/base/a");
    assert!(!out.warning);
    assert_eq!(mode, Mode::WritePath);
}

#[test]
fn save_as_enter_on_a_file_asks_before_overwriting() {
    let mut w = WritePath::new("/base".to_string());
    let mut mode = Mode::WritePath;
    let mut dir = listing();
    w.input(Key::Tab, &mut mode, &mut dir);
    for _ in 0..4 {
        w.input(Key::Down, &mut mode, &mut dir);
    }
    assert_eq!(plain(w.input(Key::Enter, &mut mode, &mut dir)), nothing());
    assert_eq!(w.input_mode(), InputMode::Check);
    let out = w.output(&dir);
    assert_eq!(out.msg, "/base/z このファイルは既に存在します。上書きしますか？(y/n)");
    assert!(out.warning);
    assert!(!out.show_cursor);
    assert_eq!(mode, Mode::WritePath);
}

#[test]
fn save_as_confirming_saves_to_the_selected_file() {
    let mut w = WritePath::new("/base".to_string());
    let mut mode = Mode::WritePath;
    let mut dir = listing();
    w.input(Key::Tab, &mut mode, &mut dir);
    for _ in 0..3 {
        w.input(Key::Down, &mut mode, &mut dir);
    }
    w.input(Key::Enter, &mut mode, &mut dir);
    assert_eq!(plain(w.input(Key::Char('y'), &mut mode, &mut dir)), (3, "/base/y".to_string()));
    assert_eq!(mode, Mode::Normal);
    assert_eq!(w.input_mode(), InputMode::Write);
}

#[test]
fn save_as_declining_leads_back_to_browsing() {
    let mut w = WritePath::new("/base".to_string());
    let mut mode = Mode::WritePath;
    let mut dir = listing();
    w.input(Key::Tab, &mut mode, &mut dir);
    for _ in 0..3 {
        w.input(Key::Down, &mut mode, &mut dir);
    }
    w.input(Key::Enter, &mut mode, &mut dir);
    assert_eq!(plain(w.input(Key::Char('n'), &mut mode, &mut dir)), nothing());
    assert_eq!(w.input_mode(), InputMode::Select);
    assert_eq!(mode, Mode::WritePath);
    assert_eq!(dir.selection(), 3);
}

#[test]
fn save_as_overwrite_question_ignores_other_keys() {
    let mut w = WritePath::new("/base".to_string());
    let mut mode = Mode::WritePath;
    let mut dir = listing();
    w.input(Key::Char('n'), &mut mode, &mut dir);
    w.input(Key::Tab, &mut mode, &mut dir);
    for _ in 0..3 {
        w.input(Key::Down, &mut mode, &mut dir);
    }
    w.input(Key::Enter, &mut mode, &mut dir);
    for k in [
        Key::Tab, Key::Enter, Key::Up, Key::Down, Key::Left, Key::Right, Key::Backspace,
        Key::Char('x'), Key::Char('Y'), Key::Ctrl('y'), Key::Ctrl('n'), Key::Other,
    ] {
        assert_eq!(plain(w.input(k, &mut mode, &mut dir)), nothing());
        assert_eq!(w.input_mode(), InputMode::Check);
        assert_eq!(mode, Mode::WritePath);
        assert_eq!(dir.selection(), 3);
        assert_eq!(w.path(), "n");
    }
    w.input(Key::Esc, &mut mode, &mut dir);
    assert_eq!(w.input_mode(), InputMode::Select);
}

#[test]
fn save_as_cancel_leads_back_to_editing() {
    for steps in 0..3 {
        let mut w = WritePath::new("/base".to_string());
        let mut mode = Mode::WritePath;
        let mut dir = listing();
        if steps > 0 {
            w.input(Key::Tab, &mut mode, &mut dir);
        }
        if steps > 1 {
            for _ in 0..3 {
                w.input(Key::Down, &mut mode, &mut dir);
            }
            w.input(Key::Enter, &mut mode, &mut dir);
            assert_eq!(w.input_mode(), InputMode::Check);
        }
        assert_eq!(plain(w.input(Key::Ctrl('c'), &mut mode, &mut dir)), nothing());
        assert_eq!(mode, Mode::Normal);
        assert_eq!(w.input_mode(), InputMode::Write);
    }
}

#[test]
fn save_as_cancel_discards_the_typed_name() {
    let mut w = WritePath::new("/base".to_string());
    let mut mode = Mode::WritePath;
    let mut dir = listing();
    for c in "abc".chars() {
        w.input(Key::Char(c), &mut mode, &mut dir);
    }
    w.input(Key::Left, &mut mode, &mut dir);
    assert_eq!((w.path(), w.cursor().x), ("abc".to_string(), 2));
    w.input(Key::Ctrl('c'), &mut mode, &mut dir);
    assert_eq!(mode, Mode::Normal);
    assert_eq!((w.path(), w.cursor().x), (String::new(), 0));
}

#[test]
fn save_as_keeps_the_name_after_saving() {
    let mut w = WritePath::new("/base".to_string());
    let mut mode = Mode::WritePath;
    let mut dir = listing();
    for c in "abc".chars() {
        w.input(Key::Char(c), &mut mode, &mut dir);
    }
    assert_eq!(plain(w.input(Key::Enter, &mut mode, &mut dir)), (3, "abc".to_string()));
    assert_eq!((w.path(), w.cursor().x), ("abc".to_string(), 3));
}

#[test]
fn save_as_ignores_keys_that_have_no_transition() {
    let mut w = WritePath::new("/base".to_string());
    let mut dir = listing();
    let mut mode = Mode::WritePath;
    w.input(Key::Char('a'), &mut mode, &mut dir);
    for k in [Key::Up, Key::Down, Key::Other, Key::Ctrl('x'), Key::Ctrl('q'), Key::Ctrl('s')] {
        assert_eq!(plain(w.input(k, &mut mode, &mut dir)), nothing());
        assert_eq!(w.path(), "a");
        assert_eq!(w.cursor().x, 1);
        assert_eq!(w.input_mode(), InputMode::Write);
        assert_eq!(mode, Mode::WritePath);
        assert_eq!(dir.selection(), 0);
    }
    w.input(Key::Tab, &mut mode, &mut dir);
    for k in [
        Key::Left, Key::Right, Key::Backspace, Key::Char('x'), Key::Char('y'), Key::Char('n'),
        Key::Other, Key::Ctrl('o'),
    ] {
        assert_eq!(plain(w.input(k, &mut mode, &mut dir)), nothing());
        assert_eq!(w.path(), "a");
        assert_eq!(w.cursor().x, 1);
        assert_eq!(w.input_mode(), InputMode::Select);
        assert_eq!(mode, Mode::WritePath);
        assert_eq!(dir.selection(), 0);
    }
}

#[test]
fn editor_starts_editing() {
    let e = editor();
    assert_eq!(e.mode, Mode::Normal);
    assert_eq!(e.normal.buffer(), strings(&["ab", "cd"]));
    assert_eq!(e.dir.path(), "");
    assert_eq!(e.dir.dir_path(), "/base");
    assert_eq!(e.cwd, "/base");
    assert!(e.cursor_visible());
    let named = Editor::new(strings(&["x"]), "f.txt".to_string(), "/".to_string(), None, Vec::new(), 80, 24);
    assert_eq!(named.dir.path(), "f.txt");
}

#[test]
fn editor_routes_keys_to_the_active_mode() {
    let mut e = editor();
    assert_eq!(plain(e.key(Key::Char('x'))), nothing());
    assert_eq!(e.normal.buffer(), strings(&["xab", "cd"]));
    assert_eq!(plain(e.key(Key::Ctrl('o'))), (1, "/base".to_string()));
    assert_eq!(e.mode, Mode::Open);
    assert!(!e.cursor_visible());
    assert_eq!(plain(e.key(Key::Char('x'))), nothing());
    assert_eq!(e.normal.buffer(), strings(&["xab", "cd"]));
    assert_eq!(plain(e.key(Key::Down)), nothing());
    assert_eq!(e.dir.selection(), 1);
    assert_eq!(plain(e.key(Key::Ctrl('c'))), nothing());
    assert_eq!(e.mode, Mode::Normal);
    assert_eq!(plain(e.key(Key::Ctrl('a'))), (1, "/base".to_string()));
    assert_eq!(e.mode, Mode::WritePath);
    assert!(e.cursor_visible());
    assert_eq!(plain(e.key(Key::Char('n'))), nothing());
    assert_eq!(e.write_path.path(), "n");
    assert_eq!(e.normal.buffer(), strings(&["xab", "cd"]));
    assert_eq!(plain(e.key(Key::Tab)), nothing());
    assert!(!e.cursor_visible());
    assert_eq!(plain(e.key(Key::Ctrl('c'))), nothing());
    assert_eq!(e.mode, Mode::Normal);
}

#[test]
fn editor_quit_and_save_shortcuts() {
    let mut e = editor();
    assert_eq!(plain(e.key(Key::Ctrl('q'))), (4, String::new()));
    assert_eq!(e.mode, Mode::Normal);
    assert_eq!(plain(e.key(Key::Ctrl('s'))), (1, "/base".to_string()));
    assert_eq!(e.mode, Mode::WritePath);
    let mut named = Editor::new(strings(&["x"]), "f.txt".to_string(), "/".to_string(), None, Vec::new(), 80, 24);
    assert_eq!(plain(named.key(Key::Ctrl('s'))), (3, "f.txt".to_string()));
    assert_eq!(named.mode, Mode::Normal);
}

#[test]
fn editor_opens_a_file_through_the_listing() {
    let mut e = editor();
    e.key(Key::Char('x'));
    assert_eq!(plain(e.key(Key::Ctrl('o'))), (1, "/base".to_string()));
    e.listed("/base".to_string(), Some("/".to_string()), children());
    e.key(Key::Down);
    e.key(Key::Down);
    assert_eq!(plain(e.key(Key::Enter)), (1, "/base/b".to_string()));
    e.listed("/base/b".to_string(), Some("/base".to_string()), vec![Entry {
        name: "f".to_string(),
        path: "/base/b/f".to_string(),
        is_dir: false,
    }]);
    assert_eq!(e.dir.selection(), 0);
    assert_eq!(e.dir.dir_path(), "/base/b");
    e.key(Key::Down);
    assert_eq!(plain(e.key(Key::Enter)), (2, "/base/b/f".to_string()));
    assert_eq!(e.mode, Mode::Open);
    assert_eq!(e.normal.buffer(), strings(&["xab", "cd"]));
    e.loaded("/base/b/f".to_string(), strings(&["line1", "line2"]));
    assert_eq!(e.mode, Mode::Normal);
    assert_eq!(e.normal.buffer(), strings(&["line1", "line2"]));
    assert_eq!(e.normal.cursor(), Cursor { x: 0, y: 0 });
    assert!(!e.normal.modified());
    assert_eq!(e.dir.path(), "/base/b/f");
}

#[test]
fn editor_listing_is_ignored_while_editing() {
    let mut e = editor();
    e.listed("/other".to_string(), None, Vec::new());
    assert_eq!(e.dir.dir_path(), "/base");
    assert_eq!(e.dir.dir_count(), 2);
}

#[test]
fn editor_saved_document_is_no_longer_modified() {
    let mut e = editor();
    e.key(Key::Char('x'));
    assert!(e.normal.modified());
    e.key(Key::Ctrl('s'));
    for c in "n.txt".chars() {
        e.key(Key::Char(c));
    }
    assert_eq!(plain(e.key(Key::Enter)), (3, "n.txt".to_string()));
    assert_eq!(e.mode, Mode::Normal);
    assert!(e.normal.modified());
    e.saved("n.txt".to_string());
    assert!(!e.normal.modified());
    assert_eq!(e.dir.path(), "n.txt");
    e.key(Key::Char('y'));
    assert!(e.normal.modified());
    assert_eq!(plain(e.key(Key::Ctrl('s'))), (3, "n.txt".to_string()));
    e.saved("n.txt".to_string());
    assert!(!e.normal.modified());
}

#[test]
fn editor_saving_elsewhere_keeps_the_known_path() {
    let mut e = Editor::new(strings(&["x"]), "f.txt".to_string(), "/".to_string(), None, Vec::new(), 80, 24);
    e.key(Key::Char('y'));
    e.saved("other.txt".to_string());
    assert!(e.normal.modified());
    assert_eq!(e.dir.path(), "f.txt");
}

#[test]
fn editor_keys_without_a_transition_change_nothing() {
    let mut e = editor();
    e.key(Key::Right);
    for k in [Key::Tab, Key::Esc, Key::Other, Key::Ctrl('c'), Key::Ctrl('z')] {
        assert_eq!(plain(e.key(k)), nothing());
        assert_eq!(e.mode, Mode::Normal);
        assert_eq!(e.normal.buffer(), strings(&["ab", "cd"]));
        assert_eq!(e.normal.cursor(), Cursor { x: 1, y: 0 });
        assert_eq!(e.dir.selection(), 0);
        assert_eq!(e.write_path.path(), "");
    }
    e.key(Key::Ctrl('o'));
    for k in [Key::Tab, Key::Esc, Key::Other, Key::Char('q'), Key::Ctrl('q'), Key::Left, Key::Backspace] {
        assert_eq!(plain(e.key(k)), nothing());
        assert_eq!(e.mode, Mode::Open);
        assert_eq!(e.normal.buffer(), strings(&["ab", "cd"]));
        assert_eq!(e.normal.cursor(), Cursor { x: 1, y: 0 });
        assert_eq!(e.dir.selection(), 0);
    }
}

#[test]
fn failure_messages() {
    assert_eq!(Failure::NotFound.message(), "ファイルが見つかりません");
    assert_eq!(Failure::PermissionDenied.message(), "アクセスが拒否されました");
    assert_eq!(Failure::Io.message(), "入出力エラー");
}

#[test]
fn editor_failed_save_keeps_the_document_modified() {
    let mut e = Editor::new(strings(&["x"]), "f.txt".to_string(), "/".to_string(), None, Vec::new(), 80, 24);
    e.key(Key::Char('y'));
    assert_eq!(e.status(), "[f.txt]変更済み");
    assert_eq!(plain(e.key(Key::Ctrl('s'))), (3, "f.txt".to_string()));
    e.failed(Failure::PermissionDenied);
    assert!(e.normal.modified());
    assert_eq!(e.mode, Mode::Normal);
    assert_eq!(e.status(), "[f.txt]変更済み アクセスが拒否されました");
    e.key(Key::Char('z'));
    assert_eq!(e.status(), "[f.txt]変更済み アクセスが拒否されました");
    e.key(Key::Ctrl('s'));
    e.saved("f.txt".to_string());
    assert_eq!(e.status(), "[f.txt]");
}

#[test]
fn editor_failed_load_stays_in_the_listing() {
    let mut e = editor();
    e.key(Key::Ctrl('o'));
    e.listed("/base".to_string(), Some("/".to_string()), children());
    for _ in 0..3 {
        e.key(Key::Down);
    }
    assert_eq!(plain(e.key(Key::Enter)), (2, "/base/y".to_string()));
    e.failed(Failure::NotFound);
    assert_eq!(e.mode, Mode::Open);
    assert_eq!(e.dir.selection(), 3);
    assert_eq!(e.dir.dir_path(), "/base");
    assert_eq!(e.normal.buffer(), strings(&["ab", "cd"]));
    assert_eq!(e.notice, "ファイルが見つかりません");
    e.key(Key::Up);
    assert_eq!(plain(e.key(Key::Enter)), (1, "/base/b".to_string()));
    e.failed(Failure::Io);
    assert_eq!(e.dir.dir_path(), "/base");
    assert_eq!(e.dir.selection(), 2);
    assert_eq!(e.notice, "入出力エラー");
    e.listed("/base/b".to_string(), Some("/base".to_string()), Vec::new());
    assert_eq!(e.notice, "");
}

#[test]
fn editor_resize_changes_the_layout() {
    let mut e = Editor::new(strings(&["hello world"]), String::new(), "/".to_string(), None, Vec::new(), 80, 24);
    assert_eq!(e.normal.output_lines().len(), 1);
    e.resize(8, 24);
    assert_eq!(e.normal.output_lines().len(), 2);
    e.resize(8, 2);
    assert_eq!(e.normal.output_lines().len(), 1);
}
