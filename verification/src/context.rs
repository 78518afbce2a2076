//! Bootstrapping the GUI context: where secondary viewports go, and which
//! memory the context starts with.

use vstd::prelude::*;

verus! {

/// The GUI context. A handle to shared state; within this crate every change
/// to that state goes through a `&mut` borrow of the handle.
#[verifier::external_type_specification]
#[verifier::external_body]
pub struct ExContext(egui::Context);

/// The memory that the context keeps between frames.
#[verifier::external_type_specification]
#[verifier::external_body]
pub struct ExMemory(egui::Memory);

/// What `egui::Context::embed_viewports` returns for the context: whether
/// secondary viewports are drawn inside their parent instead of getting a
/// native window of their own. The context is a shared handle, so this speaks
/// of the moment a call returns; a clone held elsewhere can change it later.
pub uninterp spec fn embeds_viewports(ctx: egui::Context) -> bool;

/// The memory that `egui::Context::memory` lends out for the context, at the
/// moment a call returns.
pub uninterp spec fn memory_of(ctx: egui::Context) -> egui::Memory;

/// Whether the memory is the one that `egui::Memory::default` makes.
pub uninterp spec fn is_default_memory(memory: egui::Memory) -> bool;

/// `egui::Context::default`: a fresh context. Nothing is claimed of it here;
/// the bootstrap sets what it promises.
#[verifier::external_body]
fn new_context() -> egui::Context {
    egui::Context::default()
}

/// `egui::Context::set_embed_viewports`: stores the flag, which
/// `embed_viewports` then returns, and leaves the memory alone.
#[verifier::external_body]
fn set_embed_viewports(ctx: &mut egui::Context, value: bool)
    ensures
        embeds_viewports(*final(ctx)) == value,
        memory_of(*final(ctx)) == memory_of(*old(ctx)),
{
    ctx.set_embed_viewports(value);
}

/// `egui::Memory::default`: the memory of a first run.
#[verifier::external_body]
fn default_memory() -> (memory: egui::Memory)
    ensures
        is_default_memory(memory),
{
    egui::Memory::default()
}

/// Overwrites the memory behind `slot`.
fn overwrite(slot: &mut egui::Memory, memory: egui::Memory)
    ensures
        *final(slot) == memory,
{
    *slot = memory;
}

/// `egui::Context::memory_mut`: runs the writer on the context's memory, so
/// the context then holds `memory`. The viewport flag lies outside the memory
/// and keeps its value.
#[verifier::external_body]
fn set_memory(ctx: &mut egui::Context, memory: egui::Memory)
    ensures
        memory_of(*final(ctx)) == memory,
        embeds_viewports(*final(ctx)) == embeds_viewports(*old(ctx)),
{
    ctx.memory_mut(|slot| overwrite(slot, memory));
}

/// Creates the GUI context, with the memory of an earlier run if one was
/// restored.
///
/// The context starts with exactly the restored memory, or with the default
/// memory where nothing was restored. Secondary viewports become native
/// windows on a desktop platform and are embedded in their parent elsewhere.
///
/// Decoding what the storage holds is the host's part: a stored text that is
/// missing or cannot be read reaches this function as `None`, so neither is
/// an error here.
pub fn create_egui_context(restored: Option<egui::Memory>, is_desktop: bool) -> (ctx: egui::Context)
    ensures
        embeds_viewports(ctx) == !is_desktop,
        restored is None ==> is_default_memory(memory_of(ctx)),
        restored matches Some(saved) ==> memory_of(ctx) == saved,
{
    let mut egui_ctx = new_context();
    set_embed_viewports(&mut egui_ctx, !is_desktop);
    let memory = match restored {
        Some(memory) => memory,
        None => default_memory(),
    };
    set_memory(&mut egui_ctx, memory);
    egui_ctx
}

/// Whether an operating system of this name is a desktop platform, one on
/// which every viewport can have a native window of its own.
pub open spec fn is_desktop_os(target_os: Seq<char>) -> bool {
    ||| target_os == "freebsd"@
    ||| target_os == "linux"@
    ||| target_os == "macos"@
    ||| target_os == "openbsd"@
    ||| target_os == "windows"@
}

/// Decides from the operating system's name whether the platform is a desktop.
pub fn is_desktop(target_os: &str) -> (desktop: bool)
    ensures
        desktop == is_desktop_os(target_os@),
{
    let name = target_os.to_owned();
    name == "freebsd".to_owned() || name == "linux".to_owned() || name == "macos".to_owned()
        || name == "openbsd".to_owned() || name == "windows".to_owned()
}

/// The key under which the context's memory is stored.
pub const STORAGE_EGUI_MEMORY_KEY: &'static str = "egui";

/// A place to keep strings between runs of the application.
pub trait Storage {
    /// The string stored under `key`, if there is one.
    fn get_string(&self, key: &str) -> Option<String>;

    /// Stores `value` under `key`.
    fn set_string(&mut self, key: &str, value: String);

    /// Writes what was stored to where it persists.
    fn flush(&mut self);
}

/// Asks the storage for the text of the memory that an earlier run stored:
/// once, under the memory key. Without a storage there is nothing to ask and
/// nothing stored; what a storage answers is its own affair. The text is
/// handed on undecoded.
pub fn stored_egui_memory(storage: Option<&dyn Storage>) -> (text: Option<String>)
    ensures
        storage is None ==> text is None,
{
    match storage {
        Some(storage) => storage.get_string(STORAGE_EGUI_MEMORY_KEY),
        None => None,
    }
}

} // verus!
