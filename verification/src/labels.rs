//! The user-visible strings of the menu, one complete set per locale.

use vstd::prelude::*;
use crate::locale::{Locale, lemma_unknown_tag_selects_fallback};

verus! {

/// One label for every submenu and item of the menu. A set is always
/// complete: there is no way to build one with a slot left out.
#[derive(Clone, Copy, Debug, PartialEq, Eq)]
pub struct MenuTexts {
    pub file: &'static str,
    pub new: &'static str,
    pub open: &'static str,
    pub open_folder: &'static str,
    pub save: &'static str,
    pub save_as: &'static str,
    pub quit: &'static str,
    pub edit: &'static str,
    pub undo: &'static str,
    pub redo: &'static str,
    pub cut: &'static str,
    pub copy: &'static str,
    pub paste: &'static str,
    pub select_all: &'static str,
    pub settings: &'static str,
    pub view: &'static str,
    pub toggle_sidebar: &'static str,
    pub split_view: &'static str,
    pub editor_only: &'static str,
    pub preview_only: &'static str,
    pub sync_scroll: &'static str,
    pub about: &'static str,
}

impl MenuTexts {
    /// The labels as character sequences, in the order of the fields.
    pub open spec fn slots(self) -> Seq<Seq<char>> {
        seq![
            self.file@,
            self.new@,
            self.open@,
            self.open_folder@,
            self.save@,
            self.save_as@,
            self.quit@,
            self.edit@,
            self.undo@,
            self.redo@,
            self.cut@,
            self.copy@,
            self.paste@,
            self.select_all@,
            self.settings@,
            self.view@,
            self.toggle_sidebar@,
            self.split_view@,
            self.editor_only@,
            self.preview_only@,
            self.sync_scroll@,
            self.about@,
        ]
    }
}

/// The English labels.
pub open spec fn english() -> MenuTexts {
    MenuTexts {
        file: "File",
        new: "New",
        open: "Open File...",
        open_folder: "Open Folder...",
        save: "Save",
        save_as: "Save As...",
        quit: "Quit",
        edit: "Edit",
        undo: "Undo",
        redo: "Redo",
        cut: "Cut",
        copy: "Copy",
        paste: "Paste",
        select_all: "Select All",
        settings: "Settings...",
        view: "View",
        toggle_sidebar: "Toggle Sidebar",
        split_view: "Split View",
        editor_only: "Editor Only",
        preview_only: "Preview Only",
        sync_scroll: "Sync Scroll",
        about: "About",
    }
}

/// The labels of the English locale.
pub fn english_texts() -> (texts: MenuTexts)
    ensures
        texts == english(),
{
    MenuTexts {
        file: "File",
        new: "New",
        open: "Open File...",
        open_folder: "Open Folder...",
        save: "Save",
        save_as: "Save As...",
        quit: "Quit",
        edit: "Edit",
        undo: "Undo",
        redo: "Redo",
        cut: "Cut",
        copy: "Copy",
        paste: "Paste",
        select_all: "Select All",
        settings: "Settings...",
        view: "View",
        toggle_sidebar: "Toggle Sidebar",
        split_view: "Split View",
        editor_only: "Editor Only",
        preview_only: "Preview Only",
        sync_scroll: "Sync Scroll",
        about: "About",
    }
}

/// The Traditional Chinese labels.
pub open spec fn traditional_chinese() -> MenuTexts {
    MenuTexts {
        file: "檔案",
        new: "新建",
        open: "開啟檔案...",
        open_folder: "開啟資料夾...",
        save: "儲存",
        save_as: "另存為...",
        quit: "結束",
        edit: "編輯",
        undo: "復原",
        redo: "重做",
        cut: "剪下",
        copy: "複製",
        paste: "貼上",
        select_all: "全選",
        settings: "設定...",
        view: "檢視",
        toggle_sidebar: "切換側邊欄",
        split_view: "分欄視圖",
        editor_only: "僅編輯器",
        preview_only: "僅預覽",
        sync_scroll: "同步滾動",
        about: "關於",
    }
}

/// The labels of the Traditional Chinese locale.
pub fn traditional_chinese_texts() -> (texts: MenuTexts)
    ensures
        texts == traditional_chinese(),
{
    MenuTexts {
        file: "檔案",
        new: "新建",
        open: "開啟檔案...",
        open_folder: "開啟資料夾...",
        save: "儲存",
        save_as: "另存為...",
        quit: "結束",
        edit: "編輯",
        undo: "復原",
        redo: "重做",
        cut: "剪下",
        copy: "複製",
        paste: "貼上",
        select_all: "全選",
        settings: "設定...",
        view: "檢視",
        toggle_sidebar: "切換側邊欄",
        split_view: "分欄視圖",
        editor_only: "僅編輯器",
        preview_only: "僅預覽",
        sync_scroll: "同步滾動",
        about: "關於",
    }
}

/// The Simplified Chinese labels.
pub open spec fn simplified_chinese() -> MenuTexts {
    MenuTexts {
        file: "文件",
        new: "新建",
        open: "打开文件...",
        open_folder: "打开文件夹...",
        save: "保存",
        save_as: "另存为...",
        quit: "退出",
        edit: "编辑",
        undo: "撤销",
        redo: "重做",
        cut: "剪切",
        copy: "复制",
        paste: "粘贴",
        select_all: "全选",
        settings: "设置...",
        view: "视图",
        toggle_sidebar: "切换侧边栏",
        split_view: "分栏视图",
        editor_only: "仅编辑器",
        preview_only: "仅预览",
        sync_scroll: "同步滚动",
        about: "关于",
    }
}

/// The labels of the Simplified Chinese locale.
pub fn simplified_chinese_texts() -> (texts: MenuTexts)
    ensures
        texts == simplified_chinese(),
{
    MenuTexts {
        file: "文件",
        new: "新建",
        open: "打开文件...",
        open_folder: "打开文件夹...",
        save: "保存",
        save_as: "另存为...",
        quit: "退出",
        edit: "编辑",
        undo: "撤销",
        redo: "重做",
        cut: "剪切",
        copy: "复制",
        paste: "粘贴",
        select_all: "全选",
        settings: "设置...",
        view: "视图",
        toggle_sidebar: "切换侧边栏",
        split_view: "分栏视图",
        editor_only: "仅编辑器",
        preview_only: "仅预览",
        sync_scroll: "同步滚动",
        about: "关于",
    }
}

/// The label set of each locale.
pub open spec fn labels_of(locale: Locale) -> MenuTexts {
    match locale {
        Locale::ZhCn => simplified_chinese(),
        Locale::ZhTw => traditional_chinese(),
        Locale::En => english(),
    }
}

impl Locale {
    /// The locale's label set.
    pub fn menu_texts(self) -> (texts: MenuTexts)
        ensures
            texts == labels_of(self),
    {
        match self {
            Locale::ZhCn => simplified_chinese_texts(),
            Locale::ZhTw => traditional_chinese_texts(),
            Locale::En => english_texts(),
        }
    }
}

/// The label set for a locale tag. Total: a tag that is not recognised gets
/// the labels of the fallback locale.
pub fn get_menu_texts(lang: &str) -> (texts: MenuTexts)
    ensures
        texts == labels_of(Locale::of(lang@)),
{
    Locale::resolve(lang).menu_texts()
}

/// A tag that belongs to no locale gets the labels of the fallback locale,
/// label for label.
pub proof fn lemma_unknown_tag_gets_fallback_labels(lang: Seq<char>)
    requires
        forall|l: Locale| l.tag() != lang,
    ensures
        labels_of(Locale::of(lang)) == labels_of(Locale::fallback()),
        labels_of(Locale::of(lang)) == labels_of(Locale::of(Locale::fallback().tag())),
        labels_of(Locale::of(lang)).slots() == labels_of(Locale::fallback()).slots(),
{
    lemma_unknown_tag_selects_fallback(lang);
}

/// Every label set has a label in each of its slots, and none is blank.
pub proof fn lemma_labels_are_populated(locale: Locale)
    ensures
        labels_of(locale).slots().len() == 22,
        forall|i: int| 0 <= i < 22 ==> (#[trigger] labels_of(locale).slots()[i]).len() > 0,
{
    reveal_strlit("File");
    reveal_strlit("New");
    reveal_strlit("Open File...");
    reveal_strlit("Open Folder...");
    reveal_strlit("Save");
    reveal_strlit("Save As...");
    reveal_strlit("Quit");
    reveal_strlit("Edit");
    reveal_strlit("Undo");
    reveal_strlit("Redo");
    reveal_strlit("Cut");
    reveal_strlit("Copy");
    reveal_strlit("Paste");
    reveal_strlit("Select All");
    reveal_strlit("Settings...");
    reveal_strlit("View");
    reveal_strlit("Toggle Sidebar");
    reveal_strlit("Split View");
    reveal_strlit("Editor Only");
    reveal_strlit("Preview Only");
    reveal_strlit("Sync Scroll");
    reveal_strlit("About");
    reveal_strlit("檔案");
    reveal_strlit("新建");
    reveal_strlit("開啟檔案...");
    reveal_strlit("開啟資料夾...");
    reveal_strlit("儲存");
    reveal_strlit("另存為...");
    reveal_strlit("結束");
    reveal_strlit("編輯");
    reveal_strlit("復原");
    reveal_strlit("重做");
    reveal_strlit("剪下");
    reveal_strlit("複製");
    reveal_strlit("貼上");
    reveal_strlit("全選");
    reveal_strlit("設定...");
    reveal_strlit("檢視");
    reveal_strlit("切換側邊欄");
    reveal_strlit("分欄視圖");
    reveal_strlit("僅編輯器");
    reveal_strlit("僅預覽");
    reveal_strlit("同步滾動");
    reveal_strlit("關於");
    reveal_strlit("文件");
    reveal_strlit("打开文件...");
    reveal_strlit("打开文件夹...");
    reveal_strlit("保存");
    reveal_strlit("另存为...");
    reveal_strlit("退出");
    reveal_strlit("编辑");
    reveal_strlit("撤销");
    reveal_strlit("剪切");
    reveal_strlit("复制");
    reveal_strlit("粘贴");
    reveal_strlit("全选");
    reveal_strlit("设置...");
    reveal_strlit("视图");
    reveal_strlit("切换侧边栏");
    reveal_strlit("分栏视图");
    reveal_strlit("仅编辑器");
    reveal_strlit("仅预览");
    reveal_strlit("同步滚动");
    reveal_strlit("关于");
}

} // verus!
