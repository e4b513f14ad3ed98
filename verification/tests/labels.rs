use xmarkdown_shell::labels::{
    english_texts, get_menu_texts, simplified_chinese_texts, traditional_chinese_texts, MenuTexts,
};
use xmarkdown_shell::locale::Locale;
use xmarkdown_shell::text::str_eq;

fn slots(t: &MenuTexts) -> Vec<&'static str> {
    vec![
        t.file,
        t.new,
        t.open,
        t.open_folder,
        t.save,
        t.save_as,
        t.quit,
        t.edit,
        t.undo,
        t.redo,
        t.cut,
        t.copy,
        t.paste,
        t.select_all,
        t.settings,
        t.view,
        t.toggle_sidebar,
        t.split_view,
        t.editor_only,
        t.preview_only,
        t.sync_scroll,
        t.about,
    ]
}

#[test]
fn str_eq_compares_characters() {
    assert!(str_eq("", ""));
    assert!(str_eq("en", "en"));
    assert!(str_eq("打开文件...", "打开文件..."));
    assert!(!str_eq("en", "En"));
    assert!(!str_eq("en", "en "));
    assert!(!str_eq("zh-TW", "zh-CN"));
    assert!(!str_eq("檔案", "文件"));
    assert!(!str_eq("", "a"));
}

#[test]
fn resolve_recognises_the_three_tags() {
    assert_eq!(Locale::resolve("zh-CN"), Locale::ZhCn);
    assert_eq!(Locale::resolve("zh-TW"), Locale::ZhTw);
    assert_eq!(Locale::resolve("en"), Locale::En);
}

#[test]
fn resolve_falls_back_on_any_other_tag() {
    assert_eq!(Locale::resolve(""), Locale::ZhCn);
    assert_eq!(Locale::resolve("fr"), Locale::ZhCn);
    assert_eq!(Locale::resolve("EN"), Locale::ZhCn);
    assert_eq!(Locale::resolve("en-US"), Locale::ZhCn);
    assert_eq!(Locale::resolve("zh-tw"), Locale::ZhCn);
    assert_eq!(Locale::resolve(" en"), Locale::ZhCn);
}

#[test]
fn every_locale_is_selected_by_its_own_tag() {
    for locale in [Locale::ZhCn, Locale::ZhTw, Locale::En] {
        assert_eq!(Locale::resolve(locale.as_str()), locale);
    }
    assert_eq!(Locale::ZhCn.as_str(), "zh-CN");
    assert_eq!(Locale::ZhTw.as_str(), "zh-TW");
    assert_eq!(Locale::En.as_str(), "en");
}

#[test]
fn english_labels() {
    let t = get_menu_texts("en");
    assert_eq!(
        slots(&t),
        vec![
            "File",
            "New",
            "Open File...",
            "Open Folder...",
            "Save",
            "Save As...",
            "Quit",
            "Edit",
            "Undo",
            "Redo",
            "Cut",
            "Copy",
            "Paste",
            "Select All",
            "Settings...",
            "View",
            "Toggle Sidebar",
            "Split View",
            "Editor Only",
            "Preview Only",
            "Sync Scroll",
            "About",
        ]
    );
    assert_eq!(t, english_texts());
}

#[test]
fn traditional_chinese_labels() {
    let t = get_menu_texts("zh-TW");
    assert_eq!(
        slots(&t),
        vec![
            "檔案",
            "新建",
            "開啟檔案...",
            "開啟資料夾...",
            "儲存",
            "另存為...",
            "結束",
            "編輯",
            "復原",
            "重做",
            "剪下",
            "複製",
            "貼上",
            "全選",
            "設定...",
            "檢視",
            "切換側邊欄",
            "分欄視圖",
            "僅編輯器",
            "僅預覽",
            "同步滾動",
            "關於",
        ]
    );
    assert_eq!(t, traditional_chinese_texts());
}

#[test]
fn simplified_chinese_labels() {
    let t = get_menu_texts("zh-CN");
    assert_eq!(
        slots(&t),
        vec![
            "文件",
            "新建",
            "打开文件...",
            "打开文件夹...",
            "保存",
            "另存为...",
            "退出",
            "编辑",
            "撤销",
            "重做",
            "剪切",
            "复制",
            "粘贴",
            "全选",
            "设置...",
            "视图",
            "切换侧边栏",
            "分栏视图",
            "仅编辑器",
            "仅预览",
            "同步滚动",
            "关于",
        ]
    );
    assert_eq!(t, simplified_chinese_texts());
}

#[test]
fn unknown_tag_gets_the_fallback_labels() {
    let fallback = get_menu_texts("zh-CN");
    for tag in ["", "fr", "de-DE", "EN", "zh", "zh-cn", "en-GB", "日本語"] {
        assert_eq!(get_menu_texts(tag), fallback);
        assert_eq!(slots(&get_menu_texts(tag)), slots(&fallback));
    }
    assert_ne!(get_menu_texts("en"), fallback);
    assert_ne!(get_menu_texts("zh-TW"), fallback);
}

#[test]
fn no_label_is_blank() {
    for locale in [Locale::ZhCn, Locale::ZhTw, Locale::En] {
        let t = locale.menu_texts();
        let all = slots(&t);
        assert_eq!(all.len(), 22);
        for label in all {
            assert!(!label.is_empty());
        }
    }
}

#[test]
fn menu_texts_of_a_locale_are_those_of_its_tag() {
    for locale in [Locale::ZhCn, Locale::ZhTw, Locale::En] {
        assert_eq!(locale.menu_texts(), get_menu_texts(locale.as_str()));
    }
}
