use bunode::help::{help_lines, option_left, row_lines};
use bunode::options::{option_shape_for_bun, OptionId};

fn strings(values: &[&str]) -> Vec<String> {
    values.iter().map(|value| value.to_string()).collect()
}

#[test]
fn help_should_lay_out_rows_in_two_columns() {
    let lines = row_lines("-e, --eval=...", &strings(&["evaluate script"]));

    assert_eq!(lines, vec![format!("  {:<34} evaluate script", "-e, --eval=...")]);
    let long = "x".repeat(34);
    let lines = row_lines(&long, &strings(&["one", "two"]));
    assert_eq!(lines, vec![format!("  {long}"), format!("  {:<34} one", ""), format!("  {:<34} two", "")]);
    assert_eq!(row_lines("--a", &Vec::new()), vec!["  --a".to_string()]);
}

#[test]
fn help_should_write_option_columns_like_node() {
    assert_eq!(option_left(OptionId::Eval), "-e, --eval=...");
    assert_eq!(option_left(OptionId::Inspect), "--inspect[=[host:]port]");
    assert_eq!(option_left(OptionId::CpuProf), "--cpu-prof");
}

#[test]
fn help_should_list_supported_options_in_sections() {
    let shape = option_shape_for_bun(1, 3, 14);
    let lines = help_lines(&shape);

    assert_eq!(lines[0], "Bunode is a Node.js-compatible wrapper that runs programs on Bun.");
    assert_eq!(lines[2], "Usage: node [options] [ script.js ] [arguments]");
    assert!(lines.iter().any(|line| line.starts_with("  -e, --eval=...")));
    let bun_section = lines.iter().position(|line| line == "Bun-specific options:").unwrap();
    let bun_config = lines.iter().position(|line| line.contains("--bun-config")).unwrap();
    assert!(bun_config > bun_section);
    assert!(lines.last().unwrap().ends_with("before CLI options"));
    assert!(lines.iter().all(|line| line.chars().count() <= 80 || line.contains("--")));
}
