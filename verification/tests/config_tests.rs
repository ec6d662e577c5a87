//! Configuration resolution: defaults, precedence between the dedicated and
//! generic keys, the schema merge, and diff-format cycling.

use blazingjj::component::{Action, ComponentInputResult};
use blazingjj::config::{
    remove_end_line, Config, DiffFormat, JJLayout, JjConfig, JjConfigBlazingjj,
    JjConfigTemplates, JjConfigUi, JjConfigUiDiff, UiColor,
};

#[test]
fn defaults_apply_when_nothing_is_configured() {
    let config = Config::default();
    assert_eq!(config.diff_format(), DiffFormat::ColorWords);
    assert_eq!(config.diff_tool(), None);
    assert_eq!(config.highlight_color(), UiColor::Rgb(50, 50, 150));
    assert_eq!(config.bookmark_template(), "'push-' ++ change_id.short()");
    assert_eq!(config.layout(), JJLayout::Horizontal);
    assert_eq!(config.layout_percent(), 50);
}

#[test]
fn dedicated_diff_format_key_wins() {
    let config = Config {
        blazingjj_diff_format: Some(DiffFormat::Git),
        ui_diff_format: Some(DiffFormat::Stat),
        ..Config::default()
    };
    assert_eq!(config.diff_format(), DiffFormat::Git);
}

#[test]
fn generic_diff_format_key_is_the_fallback() {
    let config = Config {
        ui_diff_format: Some(DiffFormat::Stat),
        ..Config::default()
    };
    assert_eq!(config.diff_format(), DiffFormat::Stat);
}

#[test]
fn configured_diff_tool_becomes_the_default_format() {
    let config = Config {
        blazingjj_diff_tool: Some(String::from("difft")),
        ..Config::default()
    };
    assert_eq!(config.diff_tool(), Some(Some(String::from("difft"))));
    assert_eq!(
        config.diff_format(),
        DiffFormat::DiffTool(Some(String::from("difft")))
    );
}

#[test]
fn generic_diff_tool_key_counts_without_a_name() {
    let config = Config {
        ui_diff_tool: true,
        ..Config::default()
    };
    assert_eq!(config.diff_tool(), Some(None));
    assert_eq!(config.diff_format(), DiffFormat::DiffTool(None));
}

#[test]
fn bookmark_template_precedence() {
    let config = Config {
        blazingjj_bookmark_template: Some(String::from("'mine-'")),
        git_push_bookmark_template: Some(String::from("'push-'")),
        ..Config::default()
    };
    assert_eq!(config.bookmark_template(), "'mine-'");

    let config = Config {
        git_push_bookmark_template: Some(String::from("'push-'")),
        ..Config::default()
    };
    assert_eq!(config.bookmark_template(), "'push-'");
}

#[test]
fn format_cycle_color_words_to_git_to_tool_and_back() {
    let tool = Some(Some(String::from("difft")));
    assert_eq!(
        DiffFormat::ColorWords.get_next(tool.clone()),
        DiffFormat::Git
    );
    assert_eq!(
        DiffFormat::Git.get_next(tool),
        DiffFormat::DiffTool(Some(String::from("difft")))
    );
    assert_eq!(DiffFormat::Git.get_next(None), DiffFormat::ColorWords);
    assert_eq!(
        DiffFormat::DiffTool(None).get_next(None),
        DiffFormat::ColorWords
    );
    assert_eq!(DiffFormat::Summary.get_next(None), DiffFormat::ColorWords);
    assert_eq!(DiffFormat::Stat.get_next(None), DiffFormat::ColorWords);
}

#[test]
fn nested_schema_merges_into_the_flat_one() {
    let nested = JjConfig {
        blazingjj: Some(JjConfigBlazingjj {
            highlight_color: Some(UiColor::Red),
            diff_format: Some(DiffFormat::Git),
            diff_tool: Some(String::from("difft")),
            bookmark_prefix: Some(String::from("'p-'")),
            layout: Some(JJLayout::Vertical),
            layout_percent: Some(30),
        }),
        ui: Some(JjConfigUi {
            diff: Some(JjConfigUiDiff {
                format: Some(DiffFormat::Stat),
                tool_set: true,
            }),
        }),
        templates: Some(JjConfigTemplates {
            git_push_bookmark: Some(String::from("'g-'")),
        }),
    };
    let config = Config::from_jj_config(nested);
    assert_eq!(config.blazingjj_highlight_color, Some(UiColor::Red));
    assert_eq!(config.blazingjj_diff_format, Some(DiffFormat::Git));
    assert_eq!(config.blazingjj_diff_tool, Some(String::from("difft")));
    assert_eq!(config.blazingjj_bookmark_template, Some(String::from("'p-'")));
    assert_eq!(config.blazingjj_layout, Some(JJLayout::Vertical));
    assert_eq!(config.blazingjj_layout_percent, Some(30));
    assert_eq!(config.ui_diff_format, Some(DiffFormat::Stat));
    assert!(config.ui_diff_tool);
    assert_eq!(config.git_push_bookmark_template, Some(String::from("'g-'")));
}

#[test]
fn empty_nested_schema_merges_to_defaults() {
    let nested = JjConfig { blazingjj: None, ui: None, templates: None };
    let config = Config::from_jj_config(nested);
    assert_eq!(config.blazingjj_diff_format, None);
    assert!(!config.ui_diff_tool);
    assert_eq!(config.diff_format(), DiffFormat::ColorWords);
}

#[test]
fn trailing_line_endings_are_stripped_once() {
    assert_eq!(remove_end_line("/repo/root\n"), "/repo/root");
    assert_eq!(remove_end_line("/repo/root\r\n"), "/repo/root");
    assert_eq!(remove_end_line("/repo/root"), "/repo/root");
    assert_eq!(remove_end_line("two\nlines\n"), "two\nlines");
    assert_eq!(remove_end_line(""), "");
    assert_eq!(remove_end_line("\n"), "");
}

#[test]
fn input_results_report_handling() {
    assert!(ComponentInputResult::Handled.is_handled());
    assert!(ComponentInputResult::HandledAction(Action::RefreshTab).is_handled());
    assert!(!ComponentInputResult::NotHandled.is_handled());
}
