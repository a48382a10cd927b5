//! Workspace lifecycle presentation: window titles, action availability,
//! save routes, file names, export settings and the error banner.

use vstd::prelude::*;
use crate::text::{
    trim_end_matches, without_suffixes,
    decimal, eq_ignore_ascii_case, eq_ignore_ascii_case_spec, ends_with, find_char,
    first_index_of, is_digit, lemma_decimal_digits, lemma_parse_decimal,
    lemma_trimmed_without_edge_whitespace, parse_u32, parse_u32_spec, rfind_char, to_string, trim,
    trimmed,
};

verus! {

/// What lifecycle presentation reads of an open workspace.
///
/// The document, its history and its sources stay with their owners; this
/// summary carries only the facts those owners report.
#[derive(Clone, Debug)]
pub struct WorkspaceSummary {
    /// The file or artwork name shown in the title.
    pub display_name: String,
    /// Where a save writes, once the document has a location.
    pub location: Option<String>,
    /// The document or embedded sources differ from the savepoint.
    pub dirty: bool,
    /// The workspace presents a resolved source image.
    pub has_source_presentation: bool,
    /// The workspace embeds at least one source.
    pub has_sources: bool,
    /// History has an edit to undo.
    pub can_undo: bool,
    /// History has an edit to redo.
    pub can_redo: bool,
}

/// The title of a workspace window.
pub open spec fn title_spec(display_name: Seq<char>, dirty: bool) -> Seq<char> {
    display_name + (if dirty {
        "*"@
    } else {
        ""@
    }) + " — Toniator"@
}

impl WorkspaceSummary {
    /// Saving needs a source presentation and at least one embedded source.
    pub open spec fn can_save_spec(&self) -> bool {
        self.has_source_presentation && self.has_sources
    }

    /// Reports whether this workspace can be saved.
    pub fn can_save(&self) -> (can: bool)
        ensures
            can == self.can_save_spec(),
    {
        self.has_source_presentation && self.has_sources
    }

    /// The window title: the display name, a `*` while dirty, and the
    /// application name.
    pub fn title(&self) -> (title: String)
        ensures
            title@ == title_spec(self.display_name@, self.dirty),
    {
        let mut title = self.display_name.clone();
        if self.dirty {
            title.append("*");
        } else {
            title.append("");
        }
        title.append(" — Toniator");
        title
    }
}

/// Which lifecycle actions are available, and the window title.
#[derive(Clone, Debug, PartialEq, Eq)]
pub struct UiPolicy {
    pub new_enabled: bool,
    pub open_enabled: bool,
    pub close_enabled: bool,
    pub save_enabled: bool,
    pub save_as_enabled: bool,
    pub export_enabled: bool,
    pub selector_enabled: bool,
    pub undo_enabled: bool,
    pub redo_enabled: bool,
    pub title: String,
}

/// An open workspace that can be saved.
pub open spec fn savable(workspace: Option<&WorkspaceSummary>) -> bool {
    workspace matches Some(w) && w.can_save_spec()
}

/// An open workspace that presents its source.
pub open spec fn presents_source(workspace: Option<&WorkspaceSummary>) -> bool {
    workspace matches Some(w) && w.has_source_presentation
}

/// An open workspace with an edit to undo.
pub open spec fn undoable(workspace: Option<&WorkspaceSummary>) -> bool {
    workspace matches Some(w) && w.can_undo
}

/// An open workspace with an edit to redo.
pub open spec fn redoable(workspace: Option<&WorkspaceSummary>) -> bool {
    workspace matches Some(w) && w.can_redo
}

/// `r` failed with exactly the message `message`.
pub open spec fn fails_with<T>(r: Result<T, String>, message: Seq<char>) -> bool {
    r matches Err(e) && e@ == message
}

/// Derives action availability from the open workspace and the work in
/// flight: any load, save or export blocks lifecycle actions, and only
/// loading or exporting blocks the model selector.
pub fn ui_policy(workspace: Option<&WorkspaceSummary>, loading: bool, saving: bool, exporting: bool) -> (policy: UiPolicy)
    ensures
        ({
            let busy = loading || saving || exporting;
            let can_save = savable(workspace) && !busy;
            &&& policy.new_enabled == !busy
            &&& policy.open_enabled == !busy
            &&& policy.close_enabled == (workspace is Some && !busy)
            &&& policy.save_enabled == can_save
            &&& policy.save_as_enabled == can_save
            &&& policy.export_enabled == can_save
            &&& policy.selector_enabled == (!loading && !exporting && presents_source(workspace))
            &&& policy.undo_enabled == (!busy && undoable(workspace))
            &&& policy.redo_enabled == (!busy && redoable(workspace))
            &&& policy.title@ == match workspace {
                Some(w) => title_spec(w.display_name@, w.dirty),
                None => "Toniator"@,
            }
        }),
{
    let busy = loading || saving || exporting;
    match workspace {
        Some(w) => {
            let can_save = w.can_save() && !busy;
            UiPolicy {
                new_enabled: !busy,
                open_enabled: !busy,
                close_enabled: !busy,
                save_enabled: can_save,
                save_as_enabled: can_save,
                export_enabled: can_save,
                selector_enabled: !loading && !exporting && w.has_source_presentation,
                undo_enabled: !busy && w.can_undo,
                redo_enabled: !busy && w.can_redo,
                title: w.title(),
            }
        },
        None => UiPolicy {
            new_enabled: !busy,
            open_enabled: !busy,
            close_enabled: false,
            save_enabled: false,
            save_as_enabled: false,
            export_enabled: false,
            selector_enabled: false,
            undo_enabled: false,
            redo_enabled: false,
            title: to_string("Toniator"),
        },
    }
}

/// The header-bar title: the window title without its application suffix.
pub fn header_title(title: &str) -> (header: &str)
    ensures
        header@ == without_suffixes(title@, " — Toniator"@),
{
    trim_end_matches(title, " — Toniator")
}

/// The window tooltip: unsaved changes are called out, otherwise the
/// document's title is shown.
pub fn window_tooltip<'a>(has_workspace: bool, dirty: bool, document_title: &'a str) -> (tooltip:
    &'a str)
    ensures
        tooltip@ == (if has_workspace && dirty {
            "Unsaved changes"@
        } else {
            document_title@
        }),
{
    if has_workspace && dirty {
        "Unsaved changes"
    } else {
        document_title
    }
}

/// The preview tooltip for a pending render, an accepted preview, or
/// neither.
pub fn preview_tooltip(pending: bool, has_accepted_preview: bool) -> (tooltip: &'static str)
    ensures
        tooltip@ == (if pending {
            "Rendering preview…"@
        } else if has_accepted_preview {
            "Preview updated."@
        } else {
            "No preview yet"@
        }),
{
    if pending {
        "Rendering preview…"
    } else if has_accepted_preview {
        "Preview updated."
    } else {
        "No preview yet"
    }
}

/// Where a Save goes.
#[derive(Clone, Debug, PartialEq, Eq)]
pub enum SaveRoute {
    Unavailable,
    Existing(String),
    SaveAs,
}

/// A savable workspace saves to its location, or asks for one; otherwise
/// saving is unavailable.
pub fn save_route(workspace: Option<&WorkspaceSummary>) -> (route: SaveRoute)
    ensures
        match workspace {
            Some(w) if w.can_save_spec() => match w.location {
                Some(location) => route matches SaveRoute::Existing(path) && path@ == location@,
                None => route is SaveAs,
            },
            _ => route is Unavailable,
        },
{
    match workspace {
        Some(w) => {
            if w.can_save() {
                match &w.location {
                    Some(location) => SaveRoute::Existing(location.clone()),
                    None => SaveRoute::SaveAs,
                }
            } else {
                SaveRoute::Unavailable
            }
        },
        None => SaveRoute::Unavailable,
    }
}

/// The position of the last occurrence of `c`, if any.
pub open spec fn last_index_of(s: Seq<char>, c: char) -> Option<int> {
    if exists|i: int| 0 <= i < s.len() && s[i] == c {
        Some(
            choose|i: int|
                0 <= i < s.len() && s[i] == c && forall|j: int| i < j < s.len() ==> s[j] != c,
        )
    } else {
        None
    }
}

proof fn lemma_last_index_of(s: Seq<char>, c: char, i: int)
    requires
        0 <= i < s.len(),
        s[i] == c,
        forall|j: int| i < j < s.len() ==> s[j] != c,
    ensures
        last_index_of(s, c) == Some(i),
{
    let k = choose|k: int|
        0 <= k < s.len() && s[k] == c && forall|j: int| k < j < s.len() ==> s[j] != c;
    if k < i {
        assert(s[i] != c);
    }
    if i < k {
        assert(s[k] != c);
    }
}

/// `s` ends with `suffix`.
pub open spec fn has_suffix(s: Seq<char>, suffix: Seq<char>) -> bool {
    suffix.len() <= s.len() && s.subrange(s.len() - suffix.len(), s.len() as int) == suffix
}

/// The name without its `.toniator` suffix, else without its last extension.
pub open spec fn name_stem(name: Seq<char>) -> Option<Seq<char>> {
    if has_suffix(name, ".toniator"@) {
        Some(name.subrange(0, name.len() - ".toniator"@.len()))
    } else {
        match last_index_of(name, '.') {
            Some(i) => Some(name.subrange(0, i)),
            None => None,
        }
    }
}

/// The stem used for suggested file names; an empty or missing stem becomes
/// `Untitled`.
pub open spec fn suggested_stem(name: Seq<char>) -> Seq<char> {
    match name_stem(name) {
        Some(stem) if stem.len() > 0 => stem,
        _ => "Untitled"@,
    }
}

fn stem_of(name: &str) -> (stem: &str)
    ensures
        stem@ == suggested_stem(name@),
{
    let n = name.unicode_len();
    let candidate: Option<&str> = if ends_with(name, ".toniator") {
        let m = ".toniator".unicode_len();
        Some(name.substring_char(0, n - m))
    } else {
        match rfind_char(name, '.') {
            Some(i) => {
                proof {
                    lemma_last_index_of(name@, '.', i as int);
                }
                Some(name.substring_char(0, i))
            },
            None => None,
        }
    };
    match candidate {
        Some(stem) => {
            if stem.unicode_len() > 0 {
                stem
            } else {
                "Untitled"
            }
        },
        None => "Untitled",
    }
}

/// Suggests a `.toniator` file name from the display name.
pub fn suggested_filename(workspace: &WorkspaceSummary) -> (name: String)
    ensures
        name@ == suggested_stem(workspace.display_name@) + ".toniator"@,
{
    let mut name = to_string(stem_of(workspace.display_name.as_str()));
    name.append(".toniator");
    name
}

/// An export file format.
#[derive(Clone, Copy, Debug, PartialEq, Eq, Structural)]
pub enum ExportFormat {
    Png,
    Svg,
}

/// The extension written for an export format.
pub open spec fn export_extension(format: ExportFormat) -> Seq<char> {
    match format {
        ExportFormat::Png => "png"@,
        ExportFormat::Svg => "svg"@,
    }
}

/// Suggests an export file name from the display name.
pub fn suggested_export_filename(workspace: &WorkspaceSummary, format: ExportFormat) -> (name: String)
    ensures
        name@ == suggested_stem(workspace.display_name@) + "."@ + export_extension(format),
{
    let mut name = to_string(stem_of(workspace.display_name.as_str()));
    name.append(".");
    match format {
        ExportFormat::Png => name.append("png"),
        ExportFormat::Svg => name.append("svg"),
    }
    name
}

/// A source image format the engine can resolve.
#[derive(Clone, Copy, Debug, PartialEq, Eq, Structural)]
pub enum SourceFormatHint {
    Png,
    Svg,
    Unsupported,
}

/// The extension, compared without ASCII case, names `expected`.
pub open spec fn extension_is(extension: Option<&str>, expected: Seq<char>) -> bool {
    extension matches Some(e) && eq_ignore_ascii_case_spec(e@, expected)
}

/// A path whose extension is `toniator` (in any ASCII case) is a document
/// container.
pub fn is_container_extension(extension: Option<&str>) -> (container: bool)
    ensures
        container == extension_is(extension, "toniator"@),
{
    match extension {
        Some(e) => eq_ignore_ascii_case(e, "toniator"),
        None => false,
    }
}

/// Resolves the artwork format from a path extension.
pub fn format_hint_for_extension(extension: Option<&str>) -> (hint: Result<SourceFormatHint, String>)
    ensures
        extension_is(extension, "png"@) ==> hint == Ok::<SourceFormatHint, String>(
            SourceFormatHint::Png,
        ),
        !extension_is(extension, "png"@) && extension_is(extension, "svg"@) ==> hint == Ok::<
            SourceFormatHint,
            String,
        >(SourceFormatHint::Svg),
        !extension_is(extension, "png"@) && !extension_is(extension, "svg"@) ==> fails_with(
            hint,
            "source.format: supported inputs are .toniator, PNG, and SVG"@,
        ),
{
    if let Some(e) = extension {
        if eq_ignore_ascii_case(e, "png") {
            return Ok(SourceFormatHint::Png);
        }
        if eq_ignore_ascii_case(e, "svg") {
            return Ok(SourceFormatHint::Svg);
        }
    }
    Err(to_string("source.format: supported inputs are .toniator, PNG, and SVG"))
}

/// Resolves the export format from a path extension.
pub fn export_format_for_extension(extension: Option<&str>) -> (format: Result<ExportFormat, String>)
    ensures
        extension_is(extension, "png"@) ==> format == Ok::<ExportFormat, String>(ExportFormat::Png),
        !extension_is(extension, "png"@) && extension_is(extension, "svg"@) ==> format == Ok::<
            ExportFormat,
            String,
        >(ExportFormat::Svg),
        !extension_is(extension, "png"@) && !extension_is(extension, "svg"@) ==> fails_with(
            format,
            "export.format: choose a .png or .svg filename"@,
        ),
{
    if let Some(e) = extension {
        if eq_ignore_ascii_case(e, "png") {
            return Ok(ExportFormat::Png);
        }
        if eq_ignore_ascii_case(e, "svg") {
            return Ok(ExportFormat::Svg);
        }
    }
    Err(to_string("export.format: choose a .png or .svg filename"))
}

/// An argument that starts with `-`.
pub open spec fn looks_like_option(argument: Seq<char>) -> bool {
    argument.len() > 0 && argument[0] == '-'
}

/// `r` is exactly the path `path`.
pub open spec fn yields_path(r: Result<Option<String>, String>, path: Seq<char>) -> bool {
    r matches Ok(Some(p)) && p@ == path
}

/// Accepts no argument or one path that does not look like an option.
pub fn parse_args(arguments: Vec<String>) -> (path: Result<Option<String>, String>)
    ensures
        arguments@.len() == 0 ==> path == Ok::<Option<String>, String>(None),
        arguments@.len() == 1 && !looks_like_option(arguments@[0]@) ==> yields_path(
            path,
            arguments@[0]@,
        ),
        arguments@.len() > 1 || (arguments@.len() == 1 && looks_like_option(arguments@[0]@))
            ==> fails_with(path, "usage: toniator-app [PATH]"@),
{
    if arguments.len() == 0 {
        return Ok(None);
    }
    if arguments.len() == 1 {
        let first = arguments[0].as_str();
        let looks_like_option = first.unicode_len() > 0 && first.get_char(0) == '-';
        if !looks_like_option {
            return Ok(Some(to_string(first)));
        }
    }
    Err(to_string("usage: toniator-app [PATH]"))
}

/// Splits `s` at the first `c`, dropping `c`.
pub open spec fn split_at_first(s: Seq<char>, c: char) -> Option<(Seq<char>, Seq<char>)> {
    match first_index_of(s, c) {
        Some(i) => Some((s.subrange(0, i), s.subrange(i + 1, s.len() as int))),
        None => None,
    }
}

proof fn lemma_first_index_of(s: Seq<char>, c: char, i: int)
    requires
        0 <= i < s.len(),
        s[i] == c,
        forall|j: int| 0 <= j < i ==> s[j] != c,
    ensures
        first_index_of(s, c) == Some(i),
{
    let k = choose|k: int| 0 <= k < s.len() && s[k] == c && forall|j: int| 0 <= j < k ==> s[j] != c;
    if k < i {
        assert(s[k] != c);
    }
    if i < k {
        assert(s[i] != c);
    }
}

/// The export dimensions requested by `WIDTHxHEIGHT` (or `WIDTHXHEIGHT`);
/// empty input requests none. Errors carry the message shown to the artist.
pub open spec fn output_target_spec(value: Seq<char>) -> Result<Option<(u32, u32)>, Seq<char>> {
    let v = trimmed(value);
    if v.len() == 0 {
        Ok(None)
    } else {
        let split = match split_at_first(v, 'x') {
            Some(parts) => Some(parts),
            None => split_at_first(v, 'X'),
        };
        match split {
            None => Err("export.dimensions: use WIDTHxHEIGHT"@),
            Some((w, h)) => match parse_u32_spec(w) {
                None => Err("export.dimensions: width must be a positive integer"@),
                Some(width) => match parse_u32_spec(h) {
                    None => Err("export.dimensions: height must be a positive integer"@),
                    Some(height) => Ok(Some((width, height))),
                },
            },
        }
    }
}

/// An executable result agrees with a specified one, errors compared by text.
pub open spec fn result_is<T>(r: Result<T, String>, expected: Result<T, Seq<char>>) -> bool {
    match (r, expected) {
        (Ok(a), Ok(b)) => a == b,
        (Err(e), Err(m)) => e@ == m,
        _ => false,
    }
}

/// Parses optional export dimensions. The dimensions returned are what the
/// renderer's raster-target constructor receives next; its own limits (such
/// as a zero side) are checked there, and its error is passed on unchanged.
pub fn parse_output_target(value: &str) -> (target: Result<Option<(u32, u32)>, String>)
    ensures
        result_is(target, output_target_spec(value@)),
{
    let v = trim(value);
    let n = v.unicode_len();
    if n == 0 {
        return Ok(None);
    }
    let at = match find_char(v, 'x') {
        Some(i) => {
            proof {
                lemma_first_index_of(v@, 'x', i as int);
            }
            Some(i)
        },
        None => {
            assert(first_index_of(v@, 'x') is None);
            match find_char(v, 'X') {
                Some(i) => {
                    proof {
                        lemma_first_index_of(v@, 'X', i as int);
                    }
                    Some(i)
                },
                None => {
                    assert(first_index_of(v@, 'X') is None);
                    None
                },
            }
        },
    };
    let i = match at {
        Some(i) => i,
        None => {
            return Err(to_string("export.dimensions: use WIDTHxHEIGHT"));
        },
    };
    let width_text = v.substring_char(0, i);
    let height_text = v.substring_char(i + 1, n);
    let width = match parse_u32(width_text) {
        Some(width) => width,
        None => {
            return Err(to_string("export.dimensions: width must be a positive integer"));
        },
    };
    let height = match parse_u32(height_text) {
        Some(height) => height,
        None => {
            return Err(to_string("export.dimensions: height must be a positive integer"));
        },
    };
    Ok(Some((width, height)))
}

/// The byte layout of a straight RGBA preview raster.
#[derive(Clone, Copy, Debug, PartialEq, Eq, Structural)]
pub struct TextureLayout {
    pub width: i32,
    pub height: i32,
    pub stride: usize,
}

/// The layout of a `width`×`height` RGBA raster of `pixel_len` bytes, or the
/// reason it cannot be presented.
pub open spec fn texture_layout_spec(width: u32, height: u32, pixel_len: usize) -> Result<
    TextureLayout,
    Seq<char>,
> {
    if width > i32::MAX {
        Err("Preview width exceeds GTK limits."@)
    } else if height > i32::MAX {
        Err("Preview height exceeds GTK limits."@)
    } else if width * 4 > usize::MAX {
        Err("Preview stride overflowed."@)
    } else if pixel_len != width * 4 * height {
        Err("Preview raster bytes do not match dimensions."@)
    } else {
        Ok(TextureLayout { width: width as i32, height: height as i32, stride: (width * 4) as usize })
    }
}

/// Checks that a raster's bytes match its dimensions and derives its layout.
pub fn raw_texture_layout(width: u32, height: u32, pixel_len: usize) -> (layout: Result<
    TextureLayout,
    String,
>)
    ensures
        result_is(layout, texture_layout_spec(width, height, pixel_len)),
{
    if width > 0x7fff_ffffu32 {
        return Err(to_string("Preview width exceeds GTK limits."));
    }
    if height > 0x7fff_ffffu32 {
        return Err(to_string("Preview height exceeds GTK limits."));
    }
    let stride = match (width as usize).checked_mul(4) {
        Some(stride) => stride,
        None => {
            return Err(to_string("Preview stride overflowed."));
        },
    };
    assert((stride as u128) * (height as u128) <= 0x2_0000_0000u128 * 0x8000_0000u128)
        by (nonlinear_arith)
        requires
            stride as u128 <= 0x2_0000_0000u128,
            height as u128 <= 0x8000_0000u128,
    ;
    if (pixel_len as u128) != (stride as u128) * (height as u128) {
        return Err(to_string("Preview raster bytes do not match dimensions."));
    }
    Ok(TextureLayout { width: width as i32, height: height as i32, stride })
}

/// The device-pixel size of a positive widget allocation, if it fits. The
/// size returned is what the renderer's preview-target constructor receives
/// next; a size it refuses also yields no preview target.
pub fn preview_target_from_allocation(width: i32, height: i32, scale: i32) -> (size: Option<
    (u32, u32),
>)
    ensures
        size == (if width <= 0 || height <= 0 || scale <= 0 || width * scale > u32::MAX || height
            * scale > u32::MAX {
            None
        } else {
            Some(((width * scale) as u32, (height * scale) as u32))
        }),
{
    if width <= 0 || height <= 0 || scale <= 0 {
        return None;
    }
    let scale = scale as u32;
    let width = match (width as u32).checked_mul(scale) {
        Some(w) => w,
        None => {
            return None;
        },
    };
    let height = match (height as u32).checked_mul(scale) {
        Some(h) => h,
        None => {
            return None;
        },
    };
    Some((width, height))
}

/// The live-text facts of an SVG source.
#[derive(Clone, Debug, PartialEq, Eq)]
pub struct SvgTextDiagnostic {
    pub has_live_text_node: bool,
    pub font_policy: String,
    pub rendered_glyph_coverage: bool,
}

/// What the banner shows.
#[derive(Clone, Debug, PartialEq, Eq)]
pub enum BannerPolicy {
    Hidden,
    Message(String),
}

/// The banner text, if any: an error first, then the migration notice, then
/// the SVG live-text notice.
pub open spec fn banner_text(
    migration_notice: bool,
    live_text: Option<&SvgTextDiagnostic>,
    error: Option<&str>,
) -> Option<Seq<char>> {
    match error {
        Some(e) => Some(e@),
        None => if migration_notice {
            Some("Document migration information is available."@)
        } else {
            match live_text {
                Some(d) if d.has_live_text_node => Some(
                    "SVG live text detected; "@ + d.font_policy@ + "."@,
                ),
                _ => None,
            }
        },
    }
}

/// Chooses the one banner message, by priority.
pub fn banner_policy(
    migration_notice: bool,
    live_text: Option<&SvgTextDiagnostic>,
    error: Option<&str>,
) -> (policy: BannerPolicy)
    ensures
        match banner_text(migration_notice, live_text, error) {
            Some(text) => policy matches BannerPolicy::Message(m) && m@ == text,
            None => policy is Hidden,
        },
{
    if let Some(error) = error {
        return BannerPolicy::Message(to_string(error));
    }
    if migration_notice {
        return BannerPolicy::Message(to_string("Document migration information is available."));
    }
    if let Some(diagnostic) = live_text {
        if diagnostic.has_live_text_node {
            let mut message = to_string("SVG live text detected; ");
            message.append(diagnostic.font_policy.as_str());
            message.append(".");
            return BannerPolicy::Message(message);
        }
    }
    BannerPolicy::Hidden
}

/// Export dimensions written as `WIDTHxHEIGHT` in decimal are read back as
/// exactly those dimensions.
pub proof fn lemma_dimensions_round_trip(width: u32, height: u32)
    ensures
        output_target_spec(decimal(width as nat) + "x"@ + decimal(height as nat)) == Ok::<
            Option<(u32, u32)>,
            Seq<char>,
        >(Some((width, height))),
{
    reveal_strlit("x");
    let w = decimal(width as nat);
    let h = decimal(height as nat);
    let s = w + "x"@ + h;
    lemma_decimal_digits(width as nat);
    lemma_decimal_digits(height as nat);
    lemma_parse_decimal(width);
    lemma_parse_decimal(height);
    assert(s[0] == w[0]);
    assert(s.last() == h.last());
    lemma_trimmed_without_edge_whitespace(s);
    assert(s[w.len() as int] == 'x');
    assert forall|j: int| 0 <= j < w.len() implies s[j] != 'x' by {
        assert(s[j] == w[j]);
        assert(is_digit(w[j]));
    }
    lemma_first_index_of(s, 'x', w.len() as int);
    assert(s.subrange(0, w.len() as int) =~= w);
    assert(s.subrange(w.len() as int + 1, s.len() as int) =~= h);
}

/// A suggested file name always has a non-empty stem.
pub proof fn lemma_suggested_stem_is_never_empty(name: Seq<char>)
    ensures
        suggested_stem(name).len() > 0,
{
    reveal_strlit("Untitled");
}

} // verus!
