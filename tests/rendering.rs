use megaprompt::buffer::{
    get_line, is_drawable, render_lines, trail_off, PluginSpeed, PromptBuffer, PromptBufferPlugin, BOTTOM, LEFT,
    RIGHT, TOP,
};
use megaprompt::color;
use megaprompt::escape;
use megaprompt::line::{PromptLine, PromptLineBuilder, PromptLineType};
use megaprompt::shell::ShellType;
use megaprompt::text::decimal_string;

struct Lines(Vec<PromptLine>);

impl PromptBufferPlugin for Lines {
    fn run(&mut self, _speed: PluginSpeed, shell: ShellType, _path: &str, lines: &mut Vec<PromptLine>) {
        for l in self.0.drain(..) {
            lines.push(l);
        }
        let _ = shell;
    }
}

struct Nothing;

impl PromptBufferPlugin for Nothing {
    fn run(&mut self, _speed: PluginSpeed, _shell: ShellType, _path: &str, _lines: &mut Vec<PromptLine>) {}
}

const BASH_MAGENTA: &str = "\\[\x1b[35m\\]";
const BASH_RED: &str = "\\[\x1b[31m\\]";
const BASH_RESET: &str = "\\[\x1b[0m\\]";

fn bash_start_line() -> String {
    format!(
        "┌─┤{m}\\w{r}├─┤{m}\\H{r}├──────────\n",
        m = BASH_MAGENTA,
        r = BASH_RESET
    )
}

fn bash_tail() -> String {
    format!("└─{}\\${} ", BASH_RED, BASH_RESET)
}

#[test]
fn test_prompt_lines() {
    assert_eq!(get_line(TOP | BOTTOM | LEFT | RIGHT), '┼');
    assert_eq!(get_line(TOP | BOTTOM | LEFT), '┤');
    assert_eq!(get_line(TOP | BOTTOM | RIGHT), '├');
    assert_eq!(get_line(TOP | BOTTOM), '│');
    assert_eq!(get_line(TOP | LEFT | RIGHT), '┴');
    assert_eq!(get_line(TOP | LEFT), '┘');
    assert_eq!(get_line(TOP | RIGHT), '└');
    assert_eq!(get_line(BOTTOM | LEFT), '┐');
    assert_eq!(get_line(BOTTOM | RIGHT), '┌');
    assert_eq!(get_line(BOTTOM | LEFT | RIGHT), '┬');
    assert_eq!(get_line(LEFT | RIGHT), '─');
}

#[test]
fn decimal_digits() {
    assert_eq!(decimal_string(0), "0");
    assert_eq!(decimal_string(7), "7");
    assert_eq!(decimal_string(35), "35");
    assert_eq!(decimal_string(1000), "1000");
    assert_eq!(decimal_string(u32::MAX), "4294967295");
}

#[test]
fn bash_escapes() {
    assert_eq!(ShellType::Bash.col(color::RED), "\\[\x1b[31m\\]");
    assert_eq!(ShellType::Bash.bcol(color::CYAN), "\\[\x1b[1;36m\\]");
    assert_eq!(ShellType::Bash.reset(), "\\[\x1b[0m\\]");
    assert_eq!(ShellType::Bash.dir(), "\\w");
    assert_eq!(ShellType::Bash.hostname(), "\\H");
    assert_eq!(ShellType::Bash.dollar(), "\\$");
    assert_eq!(ShellType::Bash.name(), "Bash");
}

#[test]
fn zsh_escapes() {
    assert_eq!(ShellType::Zsh.col(color::GREEN), "%{\x1b[32m%}");
    assert_eq!(ShellType::Zsh.bcol(color::WHITE), "%{\x1b[1;37m%}");
    assert_eq!(ShellType::Zsh.reset(), "%{\x1b[0m%}");
    assert_eq!(ShellType::Zsh.dir(), "%~");
    assert_eq!(ShellType::Zsh.hostname(), "%m");
    assert_eq!(ShellType::Zsh.dollar(), "%#");
    assert_eq!(ShellType::Zsh.name(), "Zsh");
}

#[test]
fn free_escape_functions_are_bash() {
    assert_eq!(escape::col(color::BLUE), "\\[\x1b[34m\\]");
    assert_eq!(escape::bcol(color::YELLOW), "\\[\x1b[1;33m\\]");
    assert_eq!(escape::reset(), "\\[\x1b[0m\\]");
}

#[test]
fn builder_keeps_blocks_in_order() {
    let line = ShellType::Zsh
        .new_free_line()
        .indent()
        .indent_by(2)
        .block("a")
        .colored_block("b", color::RED)
        .bold_colored_block("c", color::GREEN)
        .build();
    assert_eq!(line.level, 3);
    assert_eq!(line.line_type, PromptLineType::Free);
    assert_eq!(line.parts.len(), 3);
    assert_eq!(line.parts[0].text, "a");
    assert_eq!(line.parts[0].color, color::MAGENTA);
    assert!(!line.parts[0].is_bold);
    assert_eq!(line.parts[1].color, color::RED);
    assert!(line.parts[2].is_bold);
    assert_eq!(line.parts[2].render(), "%{\x1b[1;32m%}c%{\x1b[0m%}");
}

#[test]
fn trail_is_ten_rules() {
    assert_eq!(trail_off(), "──────────");
}

#[test]
fn bare_prompt_bash() {
    let mut buf: PromptBuffer<Nothing> = PromptBuffer::new(ShellType::Bash);
    let expected = format!("{}{}", bash_start_line(), bash_tail());
    assert_eq!(buf.convert_to_string_ext(PluginSpeed::Ignored), expected);
    assert_eq!(buf.convert_to_string_ext(PluginSpeed::Fast), expected);
}

#[test]
fn bare_prompt_zsh() {
    let mut buf: PromptBuffer<Nothing> = PromptBuffer::new(ShellType::Zsh);
    let m = "%{\x1b[35m%}";
    let r = "%{\x1b[0m%}";
    let expected = format!("┌─┤{m}%~{r}├─┤{m}%m{r}├──────────\n└─%{{\x1b[31m%}}%#{r} ", m = m, r = r);
    assert_eq!(buf.convert_to_string(), expected);
}

#[test]
fn plugin_lines_are_drawn_below_start() {
    let shell = ShellType::Bash;
    let title = shell.new_line().colored_block("T", color::CYAN).build();
    let item = shell.new_free_line().indent().block("x").build();
    let mut buf = PromptBuffer::new(shell);
    buf.add_plugin(Lines(vec![title, item]));
    let s = buf.convert_to_string_ext(PluginSpeed::Slow);
    let expected = format!(
        "┌─┤{m}\\w{r}├─┤{m}\\H{r}├──────────\n└┬─┤\\[\x1b[36m\\]T{r}├──────────\n┌┘ {m}x{r}\n{tail}",
        m = BASH_MAGENTA,
        r = BASH_RESET,
        tail = bash_tail()
    );
    assert_eq!(s, expected);
}

#[test]
fn plugins_are_skipped_when_ignored() {
    let shell = ShellType::Bash;
    let title = shell.new_line().block("T").build();
    let mut buf = PromptBuffer::new(shell);
    buf.add_plugin(Lines(vec![title]));
    let s = buf.convert_to_string_ext(PluginSpeed::Ignored);
    assert_eq!(s, format!("{}{}", bash_start_line(), bash_tail()));
}

#[test]
fn undrawable_plugin_output_is_dropped() {
    let shell = ShellType::Bash;
    // A free line that rises to a deeper one has no joint for its own level.
    let a = shell.new_free_line().indent().block("a").build();
    let b = shell.new_line().indent_by(2).block("b").build();
    let mut start = Vec::new();
    start.push(shell.new_line().block("s").build());
    start.push(a);
    start.push(b);
    assert!(!is_drawable(&start));
    let a = shell.new_free_line().indent().block("a").build();
    let b = shell.new_line().indent_by(2).block("b").build();
    let mut buf = PromptBuffer::new(shell);
    buf.add_plugin(Lines(vec![a, b]));
    let s = buf.convert_to_string_ext(PluginSpeed::Slow);
    assert_eq!(s, format!("{}{}", bash_start_line(), bash_tail()));
}

#[test]
fn render_two_levels() {
    let shell = ShellType::Bash;
    let lines = vec![
        shell.new_line().block("s").build(),
        shell.new_line().block("g").build(),
        shell.new_free_line().indent().block("f").build(),
    ];
    assert!(is_drawable(&lines));
    let s = render_lines(shell, &lines);
    let m = BASH_MAGENTA;
    let r = BASH_RESET;
    let expected = format!(
        "┌─┤{m}s{r}├──────────\n└┬─┤{m}g{r}├──────────\n┌┘ {m}f{r}\n{tail}",
        m = m,
        r = r,
        tail = bash_tail()
    );
    assert_eq!(s, expected);
}

#[test]
fn set_path_is_kept() {
    let mut buf: PromptBuffer<Nothing> = PromptBuffer::new(ShellType::Bash);
    buf.set_path("/home/alice".to_string());
    assert_eq!(buf.path, "/home/alice");
    assert!(PluginSpeed::Ignored.is_ignored());
    assert!(!PluginSpeed::Fast.is_ignored());
}

#[test]
fn line_constructors() {
    let l = PromptLine::new(ShellType::Zsh);
    assert_eq!(l.level, 0);
    assert_eq!(l.line_type, PromptLineType::Boxed);
    let f = PromptLine::new_free(ShellType::Zsh);
    assert_eq!(f.line_type, PromptLineType::Free);
    let b = PromptLineBuilder::new(ShellType::Bash).build();
    assert!(b.parts.is_empty());
}
