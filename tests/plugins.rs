use megaprompt::buffer::{is_drawable, PluginSpeed};
use megaprompt::color;
use megaprompt::due::{time_periods, DueDatePlugin, TimePeriod};
use megaprompt::git::{
    branch_label, branch_line, location_text, outgoing_lines, reads_status, repo_lines, status_entry_line,
    status_lines, CommitInfo, FileChange, GitStatus, StatusTypes, INDEX_MODIFIED, INDEX_NEW, INDEX_RENAMED, WT_DELETED,
    WT_MODIFIED, WT_NEW,
};
use megaprompt::line::{PromptLine, PromptLineType};
use megaprompt::paths::{ancestors, make_relative};
use megaprompt::shell::ShellType;

#[test]
fn status_flags_are_classified() {
    let s = GitStatus::new(INDEX_NEW | WT_MODIFIED);
    assert_eq!(s.index, StatusTypes::New);
    assert_eq!(s.workdir, StatusTypes::Modified);
    assert_eq!(s.text(), "AM");
    let s = GitStatus::new(WT_NEW);
    assert_eq!((s.index, s.workdir), (StatusTypes::Untracked, StatusTypes::Untracked));
    assert_eq!(s.text(), "??");
    let s = GitStatus::new(0);
    assert_eq!(s.text(), "  ");
    let s = GitStatus::new(INDEX_RENAMED | WT_DELETED);
    assert_eq!(s.text(), "RD");
}

#[test]
fn status_styles() {
    assert_eq!(GitStatus::new(WT_MODIFIED).style(), (color::BLUE, false));
    assert_eq!(GitStatus::new(INDEX_MODIFIED).style(), (color::BLUE, true));
    assert_eq!(GitStatus::new(INDEX_NEW | WT_NEW).style(), (color::GREEN, true));
    assert_eq!(GitStatus::new(INDEX_NEW | WT_MODIFIED).style(), (color::RED, true));
    assert_eq!(StatusTypes::TypeChange.file_state_color(), color::YELLOW);
    assert_eq!(StatusTypes::Renamed.file_state_color(), color::CYAN);
}

#[test]
fn status_entry_is_indented_free_line() {
    let l = status_entry_line(ShellType::Bash, GitStatus::new(INDEX_MODIFIED), "src/a.rs");
    assert_eq!(l.level, 1);
    assert_eq!(l.line_type, PromptLineType::Free);
    assert_eq!(l.parts[0].text, "M  src/a.rs");
    assert!(l.parts[0].is_bold);
}

#[test]
fn locations() {
    assert_eq!(location_text("a", "a"), "a");
    assert_eq!(location_text("a", "b"), "a -> b");
}

#[test]
fn relative_paths() {
    assert_eq!(make_relative("/a/b/c", "/a").unwrap(), "b/c");
    assert_eq!(make_relative("/a/b", "/a/b").unwrap(), "");
    assert_eq!(make_relative("/a/x", "/a/b/c").unwrap(), "../../x");
    assert_eq!(make_relative("/a/b", "/ab").unwrap(), "../a/b");
    assert!(make_relative("rel", "/abs").is_none());
}

#[test]
fn ancestors_climb_to_root() {
    assert_eq!(ancestors("/home/alice"), vec!["/home/alice", "/home", "/"]);
    assert_eq!(ancestors("a"), vec!["a", ""]);
    assert_eq!(DueDatePlugin::new().search_dirs("/x"), vec!["/x", "/"]);
}

#[test]
fn status_section_with_paths_relative_to_base() {
    let changes = vec![
        FileChange { bits: WT_MODIFIED, delta: Some(("src/a.rs".to_string(), "src/a.rs".to_string())), path: "src/a.rs".to_string() },
        FileChange { bits: INDEX_RENAMED, delta: Some(("x".to_string(), "src/y".to_string())), path: "src/y".to_string() },
        FileChange { bits: WT_NEW, delta: None, path: "new.txt".to_string() },
    ];
    let lines = status_lines(ShellType::Bash, "/repo/", "/repo/src", &changes);
    assert_eq!(lines.len(), 4);
    assert_eq!(lines[0].parts[0].text, "Git Status");
    assert_eq!(lines[1].parts[0].text, " M a.rs");
    assert_eq!(lines[2].parts[0].text, "R  ../x -> y");
    assert_eq!(lines[3].parts[0].text, "?? new.txt");
    assert!(status_lines(ShellType::Bash, "/repo/", "/repo", &Vec::new()).is_empty());
}

#[test]
fn outgoing_section_skips_commits_without_summary() {
    let commits = vec![
        CommitInfo { short_id: "abc1234".to_string(), summary: Some("Fix".to_string()) },
        CommitInfo { short_id: "def5678".to_string(), summary: None },
    ];
    let lines = outgoing_lines(ShellType::Zsh, true, &commits);
    assert_eq!(lines.len(), 2);
    assert_eq!(lines[0].parts[0].text, "Git Outgoing");
    assert_eq!(lines[0].level, 1);
    assert_eq!(lines[1].parts[0].text, "%{\x1b[0m%}abc1234 Fix");
    assert!(outgoing_lines(ShellType::Zsh, false, &Vec::new()).is_empty());
}

#[test]
fn branch_labels() {
    let s = ShellType::Bash;
    assert_eq!(branch_label(s, None, None), "New Repository");
    assert_eq!(branch_label(s, Some("main".to_string()), None), "main");
    assert_eq!(
        branch_label(s, Some("main".to_string()), Some("origin/main".to_string())),
        "main\\[\x1b[0m\\] -> \\[\x1b[35m\\]origin/main"
    );
    assert_eq!(branch_label(s, None, Some("x".to_string())), "Unknown branch state");
    let l = branch_line(s, Some("dev".to_string()), None, true);
    assert_eq!(l.level, 1);
    assert_eq!(l.parts[0].color, color::CYAN);
}

#[test]
fn repository_sections_in_order() {
    let shell = ShellType::Bash;
    let changes = vec![FileChange { bits: WT_NEW, delta: None, path: "n".to_string() }];
    let commits = vec![CommitInfo { short_id: "1".to_string(), summary: Some("s".to_string()) }];
    let lines = repo_lines(shell, "/r/", "/r", Some(&changes), &commits, Some((Some("main".to_string()), None)));
    let texts: Vec<&str> = lines.iter().map(|l| l.parts[0].text.as_str()).collect();
    assert_eq!(texts, vec!["Git Status", "?? n", "Git Outgoing", "\\[\x1b[0m\\]1 s", "main"]);
    assert_eq!(lines[2].level, 1);
    assert_eq!(lines[4].level, 1);
    let mut all: Vec<PromptLine> = vec![shell.new_line().block("start").build()];
    all.extend(lines);
    assert!(is_drawable(&all));
    let bare = repo_lines(shell, "/r/", "/r", None, &Vec::new(), Some((Some("main".to_string()), None)));
    assert_eq!(bare.len(), 1);
    assert_eq!(bare[0].level, 0);
    assert!(reads_status(PluginSpeed::Slow));
    assert!(!reads_status(PluginSpeed::Fast));
}

#[test]
fn due_line_text() {
    let p = DueDatePlugin::new();
    let l = p.due_line(ShellType::Bash, "  Thesis\n", "is due in\n", "was due\n", false, "3 hours 5 minutes ");
    assert_eq!(
        l.parts[0].text,
        "\\[\x1b[35m\\]Thesis is due in: \\[\x1b[36m\\]3 hours 5 minutes"
    );
    let l = p.due_line(ShellType::Zsh, "T", "f", "p", true, "1 day");
    assert_eq!(l.parts[0].text, "%{\x1b[35m%}T p: %{\x1b[31m%}1 day ago");
}

#[test]
fn unit_names() {
    let t = time_periods();
    assert_eq!(t.len(), 9);
    assert_eq!((t[0].singular.as_str(), t[0].plural.as_str()), ("millenium", "millenia"));
    assert_eq!(t[4].plural, "months");
    let r = TimePeriod::regular("week");
    assert_eq!(r.plural, "weeks");
}
