use vstd::prelude::*;
use egui::epaint::text::{FontInsert, FontPriority, InsertFontFamily};
use egui::{FontData, FontFamily};

verus! {

/// The egui context that fonts are registered with.
#[verifier::external_type_specification]
#[verifier::external_body]
pub struct ExContext(egui::Context);

/// Where a new font goes among the fonts of its family.
#[verifier::external_type_specification]
pub struct ExFontPriority(FontPriority);

/// Relies on egui::Context::add_font: queues `data` as a font named `name`,
/// in a new family `FontFamily::Name(name)` at `priority`, to be installed
/// at the start of the next pass (egui skips it when a font of that name is
/// installed already). The context is shared, so nothing is stated of it;
/// font data that egui cannot parse fails later, outside this call.
#[verifier::external_body]
pub(crate) fn add_font(ctx: &egui::Context, name: String, data: Vec<u8>, priority: FontPriority) {
    let family = FontFamily::Name(name.as_str().into());
    ctx.add_font(FontInsert {
        families: vec![InsertFontFamily { family, priority }],
        name,
        data: FontData::from_owned(data),
    });
}

} // verus!
