use shell_core::homepage::{
    ChangeFunctionMessage, ContentRegion, Functions, PageTransition, Widget,
    adjust_content_area_position, change_function,
};
use shell_core::i18n::{Language, LanguageManager};
use shell_core::setting::{BorderShade, MarkFill};

fn manager(lang: Language) -> LanguageManager {
    let mut m = LanguageManager::default();
    m.set_current_language(lang);
    m
}

fn mounted_about() -> (Functions, ContentRegion) {
    let mut region = ContentRegion::new();
    shell_core::about::on_enter(&mut region);
    (Functions::About, region)
}

#[test]
fn navigating_to_the_current_page_is_a_no_op() {
    let (mut current, mut region) = mounted_about();
    let before = region.nodes.clone();
    let messages = vec![ChangeFunctionMessage(Functions::About)];
    let transitions =
        change_function(&messages, &mut current, &mut region, true, &manager(Language::Chinese));
    assert!(transitions.is_empty());
    assert_eq!(current, Functions::About);
    assert_eq!(region.nodes, before);
}

#[test]
fn navigating_from_about_to_setting_swaps_the_content() {
    // Scenario: start at the About page and send a navigation message for
    // Setting. The About content is gone; the Setting page shows the two
    // language controls with their labels, and the control of the default
    // language (Chinese) is checked.
    let (mut current, mut region) = mounted_about();
    let messages = vec![ChangeFunctionMessage(Functions::Setting)];
    let transitions =
        change_function(&messages, &mut current, &mut region, true, &manager(Language::Chinese));
    assert_eq!(
        transitions,
        vec![PageTransition { from: Functions::About, to: Functions::Setting }]
    );
    assert_eq!(current, Functions::Setting);
    assert!(region.nodes.iter().all(|n| n.owner == Functions::Setting));
    assert!(!region.nodes.iter().any(|n| n.widget == Widget::AboutText));

    let mut radio_count = 0;
    let mut label_count = 0;
    for node in region.nodes.iter() {
        match node.widget {
            Widget::RadioOption(rc) => {
                radio_count += 1;
                if rc.language == Language::Chinese {
                    assert!(rc.checked);
                    assert_eq!(rc.border, BorderShade::Checked);
                    assert_eq!(rc.fill, MarkFill::Filled);
                } else {
                    assert!(!rc.checked);
                    assert_eq!(rc.border, BorderShade::Unchecked);
                    assert_eq!(rc.fill, MarkFill::Clear);
                }
            }
            Widget::RadioLabel(_) => label_count += 1,
            _ => {}
        }
    }
    assert_eq!(radio_count, 2);
    assert_eq!(label_count, 2);
}

#[test]
fn distinct_targets_in_one_batch_chain_sequentially() {
    let (mut current, mut region) = mounted_about();
    let messages = vec![
        ChangeFunctionMessage(Functions::Setting),
        ChangeFunctionMessage(Functions::Test),
        ChangeFunctionMessage(Functions::Test),
    ];
    let transitions =
        change_function(&messages, &mut current, &mut region, true, &manager(Language::Chinese));
    assert_eq!(
        transitions,
        vec![
            PageTransition { from: Functions::About, to: Functions::Setting },
            PageTransition { from: Functions::Setting, to: Functions::Test },
        ]
    );
    assert_eq!(current, Functions::Test);
    assert_eq!(region.nodes.len(), 1);
    assert_eq!(region.nodes[0].widget, Widget::TestText);
}

#[test]
fn returning_to_the_initial_page_restores_the_node_count() {
    let (mut current, mut region) = mounted_about();
    let baseline = region.nodes.len();
    let messages = vec![
        ChangeFunctionMessage(Functions::Setting),
        ChangeFunctionMessage(Functions::RealtimePlot),
        ChangeFunctionMessage(Functions::Test),
        ChangeFunctionMessage(Functions::About),
    ];
    change_function(&messages, &mut current, &mut region, true, &manager(Language::Chinese));
    assert_eq!(current, Functions::About);
    assert_eq!(region.nodes.len(), baseline);
}

#[test]
fn an_absent_region_skips_content_but_the_page_still_changes() {
    let (mut current, mut region) = mounted_about();
    let before = region.nodes.clone();
    let messages = vec![ChangeFunctionMessage(Functions::Setting)];
    let transitions =
        change_function(&messages, &mut current, &mut region, false, &manager(Language::Chinese));
    assert_eq!(transitions.len(), 1);
    assert_eq!(current, Functions::Setting);
    assert_eq!(region.nodes, before);
}

#[test]
fn realtime_plot_mounts_nothing() {
    let (mut current, mut region) = mounted_about();
    let messages = vec![ChangeFunctionMessage(Functions::RealtimePlot)];
    change_function(&messages, &mut current, &mut region, true, &manager(Language::Chinese));
    assert_eq!(current, Functions::RealtimePlot);
    assert!(region.nodes.is_empty());
}

#[test]
fn content_area_moves_below_title_and_menu_bars() {
    let mut region = ContentRegion::new();
    assert_eq!(region.top_px, 40);
    adjust_content_area_position(&mut region);
    assert_eq!(region.top_px, 80);
}

#[test]
fn default_page_is_about() {
    assert_eq!(Functions::default(), Functions::About);
}
