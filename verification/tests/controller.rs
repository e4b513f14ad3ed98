use xmarkdown_shell::builder::create_menu_with_lang;
use xmarkdown_shell::command::CommandId;
use xmarkdown_shell::controller::MenuController;
use xmarkdown_shell::locale::Locale;
use xmarkdown_shell::menu::{MenuNode, MenuTree};
use xmarkdown_shell::probe::{get_linux_desktop_env, Platform};

fn started() -> MenuController {
    MenuController::start(Ok(())).expect("the startup menu was installed")
}

#[test]
fn startup_menu_is_that_of_the_fallback_locale() {
    assert_eq!(MenuController::startup_menu(), create_menu_with_lang("zh-CN"));
    let controller = started();
    assert_eq!(controller.locale(), Locale::ZhCn);
    assert_eq!(controller.active_menu(), create_menu_with_lang("zh-CN"));
}

#[test]
fn startup_failure_is_fatal() {
    let outcome = MenuController::start(Err("out of menu handles".to_string()));
    match outcome {
        Ok(_) => panic!("a controller without an installed menu"),
        Err(message) => assert_eq!(message, "out of menu handles"),
    }
}

#[test]
fn switch_replaces_the_active_menu() {
    let mut controller = started();
    assert_eq!(controller.update_menu_language("en", Ok(())), Ok(()));
    assert_eq!(controller.locale(), Locale::En);
    assert_eq!(controller.active_menu(), create_menu_with_lang("en"));
    assert_eq!(controller.update_menu_language("zh-TW", Ok(())), Ok(()));
    assert_eq!(controller.locale(), Locale::ZhTw);
    assert_eq!(controller.active_menu(), create_menu_with_lang("zh-TW"));
}

#[test]
fn switch_to_an_unknown_locale_installs_the_fallback_menu() {
    let mut controller = started();
    assert_eq!(controller.update_menu_language("en", Ok(())), Ok(()));
    assert_eq!(controller.update_menu_language("fr", Ok(())), Ok(()));
    assert_eq!(controller.locale(), Locale::ZhCn);
    assert_eq!(controller.active_menu(), MenuController::startup_menu());
}

#[test]
fn failed_switch_keeps_the_active_menu() {
    let mut controller = started();
    assert_eq!(controller.update_menu_language("en", Ok(())), Ok(()));
    let outcome = controller.update_menu_language("zh-TW", Err("menu rejected".to_string()));
    assert_eq!(outcome, Err("menu rejected".to_string()));
    assert_eq!(controller.locale(), Locale::En);
    assert_eq!(controller.active_menu(), create_menu_with_lang("en"));
}

#[test]
fn failed_switch_is_not_retried() {
    let mut controller = started();
    let outcome = controller.update_menu_language("en", Err(String::new()));
    assert_eq!(outcome, Err(String::new()));
    assert_eq!(controller.locale(), Locale::ZhCn);
    assert_eq!(controller.update_menu_language("en", Ok(())), Ok(()));
    assert_eq!(controller.locale(), Locale::En);
}

#[test]
fn switching_twice_is_switching_once() {
    for tag in ["zh-CN", "zh-TW", "en", "fr"] {
        let mut once = started();
        assert_eq!(once.update_menu_language(tag, Ok(())), Ok(()));
        let mut twice = started();
        assert_eq!(twice.update_menu_language(tag, Ok(())), Ok(()));
        let first = twice.active_menu();
        assert_eq!(twice.update_menu_language(tag, Ok(())), Ok(()));
        let second = twice.active_menu();
        assert_eq!(first, second);
        assert_eq!(once.locale(), twice.locale());
        assert_eq!(once.active_menu(), second);
    }
}

#[test]
fn desktop_environment_on_linux_is_the_indicator() {
    assert_eq!(get_linux_desktop_env(Platform::Linux, Some("KDE".to_string())), "KDE");
    assert_eq!(
        get_linux_desktop_env(Platform::Linux, Some("ubuntu:GNOME".to_string())),
        "ubuntu:GNOME"
    );
    assert_eq!(get_linux_desktop_env(Platform::Linux, Some(String::new())), "");
}

#[test]
fn desktop_environment_on_linux_is_empty_when_unset() {
    assert_eq!(get_linux_desktop_env(Platform::Linux, None), "");
}

#[test]
fn desktop_environment_elsewhere_is_always_empty() {
    assert_eq!(get_linux_desktop_env(Platform::Other, None), "");
    assert_eq!(get_linux_desktop_env(Platform::Other, Some("KDE".to_string())), "");
    assert_eq!(get_linux_desktop_env(Platform::Other, Some("GNOME".to_string())), "");
    assert_eq!(get_linux_desktop_env(Platform::Other, Some(String::new())), "");
}

fn second_file_item(tree: &MenuTree) -> (&'static str, &'static str, CommandId, Option<String>) {
    let MenuNode::Submenu { label: submenu, children, .. } = &tree.submenus[0] else {
        panic!("not a submenu");
    };
    let MenuNode::Item { label, id, accelerator, .. } = &children[1] else {
        panic!("not an item");
    };
    (submenu, label, *id, accelerator.map(|a| a.descriptor()))
}

#[test]
fn switching_to_english_changes_the_label_and_nothing_else() {
    let mut controller = started();
    let before = controller.active_menu();
    let (submenu, label, id, accelerator) = second_file_item(&before);
    assert_eq!(submenu, "文件");
    assert_eq!(label, "打开文件...");
    assert_eq!(id.as_str(), "open");
    assert_eq!(accelerator, Some("CmdOrCtrl+O".to_string()));

    assert_eq!(controller.update_menu_language("en", Ok(())), Ok(()));
    let after = controller.active_menu();
    let (submenu, label, id, accelerator) = second_file_item(&after);
    assert_eq!(submenu, "File");
    assert_eq!(label, "Open File...");
    assert_eq!(id, CommandId::Open);
    assert_eq!(id.as_str(), "open");
    assert_eq!(accelerator, Some("CmdOrCtrl+O".to_string()));
}
