use std::cell::RefCell;
use winit_integration::context::{create_egui_context, is_desktop, stored_egui_memory};
use winit_integration::{Storage, STORAGE_EGUI_MEMORY_KEY};

/// A storage that holds at most one string, and notes the keys it was asked for.
struct OneSlot {
    key: String,
    value: Option<String>,
    asked: RefCell<Vec<String>>,
}

impl OneSlot {
    fn holding(key: &str, value: Option<String>) -> Self {
        OneSlot {
            key: key.to_owned(),
            value,
            asked: RefCell::new(Vec::new()),
        }
    }
}

impl Storage for OneSlot {
    fn get_string(&self, key: &str) -> Option<String> {
        self.asked.borrow_mut().push(key.to_owned());
        if key == self.key {
            self.value.clone()
        } else {
            None
        }
    }

    fn set_string(&mut self, key: &str, value: String) {
        self.key = key.to_owned();
        self.value = Some(value);
    }

    fn flush(&mut self) {}
}

/// A memory that differs from the default one in several options.
fn changed_memory() -> egui::Memory {
    let mut memory = egui::Memory::default();
    memory.options.zoom_factor = 1.5;
    memory.options.screen_reader = true;
    memory.options.warn_on_id_clash = false;
    memory.options.line_scroll_speed = 12.0;
    memory
}

fn as_text(memory: &egui::Memory) -> String {
    ron::to_string(memory).expect("a memory can be written as text")
}

/// A memory that was written out by one run and read back by the next.
fn saved_and_read_back(memory: &egui::Memory) -> egui::Memory {
    ron::from_str(&as_text(memory)).expect("a written memory can be read back")
}

/// The options of a memory that are plain values: zoom factor, screen reader,
/// warning on clashing ids, and scroll speed. (Two styles never compare equal,
/// so whole option sets cannot be compared.)
type PlainOptions = (f32, bool, bool, f32);

fn plain(memory: &egui::Memory) -> PlainOptions {
    let options = &memory.options;
    (
        options.zoom_factor,
        options.screen_reader,
        options.warn_on_id_clash,
        options.line_scroll_speed,
    )
}

fn options_of(ctx: &egui::Context) -> PlainOptions {
    ctx.memory(plain)
}

fn default_options() -> PlainOptions {
    plain(&egui::Memory::default())
}

fn changed_options() -> PlainOptions {
    (1.5, true, false, 12.0)
}

#[test]
fn the_five_desktop_systems() {
    assert!(is_desktop("freebsd"));
    assert!(is_desktop("linux"));
    assert!(is_desktop("macos"));
    assert!(is_desktop("openbsd"));
    assert!(is_desktop("windows"));
}

#[test]
fn other_systems_are_no_desktop() {
    assert!(!is_desktop("android"));
    assert!(!is_desktop("ios"));
    assert!(!is_desktop("netbsd"));
    assert!(!is_desktop("dragonfly"));
    assert!(!is_desktop("unknown"));
    assert!(!is_desktop(""));
}

#[test]
fn a_desktop_name_must_match_exactly() {
    assert!(!is_desktop("Linux"));
    assert!(!is_desktop("linux "));
    assert!(!is_desktop(" linux"));
    assert!(!is_desktop("linu"));
    assert!(!is_desktop("linuxx"));
    assert!(!is_desktop("win"));
    assert!(!is_desktop("macOS"));
}

#[test]
fn the_memory_key() {
    assert_eq!(STORAGE_EGUI_MEMORY_KEY, "egui");
}

#[test]
fn viewports_are_native_windows_on_a_desktop() {
    let ctx = create_egui_context(None, true);
    assert!(!ctx.embed_viewports());
}

#[test]
fn viewports_are_embedded_off_the_desktop() {
    let ctx = create_egui_context(None, false);
    assert!(ctx.embed_viewports());
}

#[test]
fn a_fresh_context_embeds_viewports_until_told_otherwise() {
    assert!(egui::Context::default().embed_viewports());
}

#[test]
fn without_a_restored_memory_the_memory_is_the_default() {
    assert_eq!(default_options(), (1.0, false, true, 40.0));
    let ctx = create_egui_context(None, true);
    assert_eq!(options_of(&ctx), default_options());
    let ctx = create_egui_context(None, false);
    assert_eq!(options_of(&ctx), default_options());
}

#[test]
fn a_restored_memory_is_the_memory_of_the_context() {
    let ctx = create_egui_context(Some(changed_memory()), true);
    assert_eq!(options_of(&ctx), changed_options());
    assert_ne!(options_of(&ctx), default_options());
    assert_eq!(ctx.memory(|memory| memory.options.zoom_factor), 1.5);
    assert!(!ctx.embed_viewports());
}

#[test]
fn a_restored_memory_is_taken_off_the_desktop_too() {
    let ctx = create_egui_context(Some(changed_memory()), false);
    assert_eq!(options_of(&ctx), changed_options());
    assert!(ctx.embed_viewports());
}

#[test]
fn a_restored_default_memory() {
    let ctx = create_egui_context(Some(egui::Memory::default()), true);
    assert_eq!(options_of(&ctx), default_options());
}

#[test]
fn a_memory_that_went_through_the_storage_is_restored() {
    let saved = changed_memory();
    let mut storage = OneSlot::holding("other", None);
    storage.set_string(STORAGE_EGUI_MEMORY_KEY, as_text(&saved));
    storage.flush();
    let text = stored_egui_memory(Some(&storage)).expect("the stored text");
    let restored: egui::Memory = ron::from_str(&text).expect("a memory");
    let ctx = create_egui_context(Some(restored), true);
    assert_eq!(options_of(&ctx), plain(&saved));
    assert_ne!(options_of(&ctx), default_options());
}

#[test]
fn stored_data_comes_back_with_the_memory() {
    let id = egui::Id::new("panel width");
    let mut saved = egui::Memory::default();
    saved.data.insert_persisted(id, 240_u32);
    let ctx = create_egui_context(Some(saved_and_read_back(&saved)), true);
    assert_eq!(ctx.data_mut(|data| data.get_persisted::<u32>(id)), Some(240));
    let fresh = create_egui_context(None, true);
    assert_eq!(fresh.data_mut(|data| data.get_persisted::<u32>(id)), None);
}

#[test]
fn each_context_is_its_own() {
    let one = create_egui_context(Some(changed_memory()), true);
    let two = create_egui_context(None, false);
    assert!(one != two);
    assert_eq!(options_of(&one).0, 1.5);
    assert_eq!(options_of(&two).0, 1.0);
    assert!(!one.embed_viewports());
    assert!(two.embed_viewports());
}

#[test]
fn without_a_storage_nothing_is_stored() {
    assert_eq!(stored_egui_memory(None), None);
}

#[test]
fn an_empty_storage_holds_no_memory() {
    let storage = OneSlot::holding(STORAGE_EGUI_MEMORY_KEY, None);
    assert_eq!(stored_egui_memory(Some(&storage)), None);
}

#[test]
fn the_stored_text_is_handed_on_as_it_is() {
    for text in ["", "not a memory", "(options: (zoom_factor: 1.5))", "(("] {
        let storage = OneSlot::holding(STORAGE_EGUI_MEMORY_KEY, Some(text.to_owned()));
        assert_eq!(stored_egui_memory(Some(&storage)), Some(text.to_owned()));
    }
}

#[test]
fn a_text_under_another_key_is_not_the_memory() {
    let storage = OneSlot::holding("app", Some(as_text(&changed_memory())));
    assert_eq!(stored_egui_memory(Some(&storage)), None);
}

#[test]
fn the_storage_is_asked_once_for_the_memory_key() {
    let storage = OneSlot::holding(STORAGE_EGUI_MEMORY_KEY, None);
    let _text = stored_egui_memory(Some(&storage));
    assert_eq!(*storage.asked.borrow(), vec!["egui".to_owned()]);
}

#[test]
fn a_storage_behind_a_trait_object() {
    let storage = OneSlot::holding(STORAGE_EGUI_MEMORY_KEY, Some("kept".to_owned()));
    let erased: &dyn Storage = &storage;
    assert_eq!(stored_egui_memory(Some(erased)), Some("kept".to_owned()));
}
