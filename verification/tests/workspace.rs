use toniator_app::workspace::{
    BannerPolicy, ExportFormat, SaveRoute, SourceFormatHint, SvgTextDiagnostic, TextureLayout,
    UiPolicy, WorkspaceSummary, banner_policy, export_format_for_extension,
    format_hint_for_extension, is_container_extension, parse_args, parse_output_target,
    preview_target_from_allocation, raw_texture_layout, save_route, suggested_export_filename,
    suggested_filename, ui_policy, header_title, window_tooltip, preview_tooltip,
};

fn summary(name: &str, dirty: bool, presented: bool) -> WorkspaceSummary {
    WorkspaceSummary {
        display_name: name.to_owned(),
        location: None,
        dirty,
        has_source_presentation: presented,
        has_sources: presented,
        can_undo: false,
        can_redo: false,
    }
}

#[test]
fn lifecycle_names_filters_titles_and_raw_presentation_contracts_are_stable() {
    let workspace = summary("Untitled", false, false);
    assert_eq!(suggested_filename(&workspace), "Untitled.toniator");
    assert!(!is_container_extension(None));
    assert!(is_container_extension(Some("TONIATOR")));
    assert_eq!(
        raw_texture_layout(2, 1, 8).unwrap(),
        TextureLayout {
            width: 2,
            height: 1,
            stride: 8
        }
    );
    assert!(preview_target_from_allocation(960, 540, 2).is_some());
    let untitled = summary("Untitled", false, false);
    assert_eq!(untitled.title(), "Untitled — Toniator");
    assert_eq!(
        ui_policy(None, false, false, false),
        UiPolicy {
            new_enabled: true,
            open_enabled: true,
            close_enabled: false,
            save_enabled: false,
            save_as_enabled: false,
            export_enabled: false,
            selector_enabled: false,
            undo_enabled: false,
            redo_enabled: false,
            title: "Toniator".into(),
        }
    );
    assert_eq!(save_route(Some(&untitled)), SaveRoute::Unavailable);
    let direct = summary("raster.png", true, true);
    let ready = ui_policy(Some(&direct), false, false, false);
    assert!(ready.save_enabled && ready.save_as_enabled && ready.selector_enabled);
    assert_eq!(ready.title, "raster.png* — Toniator");
    let saving = ui_policy(Some(&direct), false, true, false);
    assert!(!saving.save_enabled && !saving.save_as_enabled && saving.selector_enabled);
    let exporting = ui_policy(Some(&direct), false, false, true);
    assert!(
        !exporting.new_enabled
            && !exporting.open_enabled
            && !exporting.close_enabled
            && !exporting.save_enabled
            && !exporting.save_as_enabled
            && !exporting.export_enabled
            && !exporting.selector_enabled
    );
    assert_eq!(
        suggested_export_filename(&direct, ExportFormat::Png),
        "raster.png"
    );
    assert_eq!(
        suggested_export_filename(&direct, ExportFormat::Svg),
        "raster.svg"
    );
    assert_eq!(
        export_format_for_extension(Some("PNG")),
        Ok(ExportFormat::Png)
    );
    assert_eq!(
        export_format_for_extension(Some("svg")),
        Ok(ExportFormat::Svg)
    );
    assert!(parse_output_target("96x64").unwrap().is_some());
    assert!(parse_output_target("96").is_err());
    assert!(matches!(save_route(Some(&direct)), SaveRoute::SaveAs));
    let container = WorkspaceSummary {
        location: Some("/work/raster-sample-v1.toniator".to_owned()),
        ..summary("raster-sample-v1.toniator", false, true)
    };
    assert_eq!(container.title(), "raster-sample-v1.toniator — Toniator");
    assert_eq!(
        save_route(Some(&container)),
        SaveRoute::Existing("/work/raster-sample-v1.toniator".to_owned())
    );
    let edited = WorkspaceSummary {
        dirty: true,
        ..container
    };
    assert_eq!(edited.title(), "raster-sample-v1.toniator* — Toniator");
}

#[test]
fn banner_policy_prioritizes_errors_then_migration_then_svg_live_text() {
    let live = SvgTextDiagnostic {
        has_live_text_node: true,
        font_policy: "system-fonts".into(),
        rendered_glyph_coverage: true,
    };
    assert_eq!(banner_policy(false, None, None), BannerPolicy::Hidden);
    assert_eq!(
        banner_policy(false, Some(&live), None),
        BannerPolicy::Message("SVG live text detected; system-fonts.".into())
    );
    assert_eq!(
        banner_policy(true, Some(&live), None),
        BannerPolicy::Message("Document migration information is available.".into())
    );
    assert_eq!(
        banner_policy(true, Some(&live), Some("save.failed: denied")),
        BannerPolicy::Message("save.failed: denied".into())
    );
    let outlined = SvgTextDiagnostic {
        has_live_text_node: false,
        ..live
    };
    assert_eq!(banner_policy(false, Some(&outlined), None), BannerPolicy::Hidden);
}

#[test]
fn startup_inputs_and_extensions_are_stable() {
    assert_eq!(parse_args(vec![]).unwrap(), None);
    assert_eq!(
        parse_args(vec!["file.toniator".into()]).unwrap(),
        Some("file.toniator".to_owned())
    );
    assert!(parse_args(vec!["one.png".into(), "two.svg".into()]).is_err());
    assert!(parse_args(vec!["--help".into()]).is_err());
    assert!(is_container_extension(Some("TONIATOR")));
    assert!(
        format_hint_for_extension(Some("jpg"))
            .unwrap_err()
            .contains(".toniator, PNG, and SVG")
    );
    assert_eq!(format_hint_for_extension(Some("Png")), Ok(SourceFormatHint::Png));
    assert_eq!(format_hint_for_extension(Some("SVG")), Ok(SourceFormatHint::Svg));
    assert!(format_hint_for_extension(None).is_err());
}

#[test]
fn suggested_names_strip_the_container_or_last_extension() {
    assert_eq!(suggested_filename(&summary("design.toniator", false, true)), "design.toniator");
    assert_eq!(suggested_filename(&summary("a.b.png", false, true)), "a.b.toniator");
    assert_eq!(suggested_filename(&summary("noext", false, true)), "Untitled.toniator");
    assert_eq!(suggested_filename(&summary(".toniator", false, true)), "Untitled.toniator");
    assert_eq!(suggested_filename(&summary(".png", false, true)), "Untitled.toniator");
    assert_eq!(
        suggested_export_filename(&summary("art.toniator", false, true), ExportFormat::Svg),
        "art.svg"
    );
}

#[test]
fn output_targets_parse_trimmed_dimensions_with_either_separator() {
    assert_eq!(parse_output_target(""), Ok(None));
    assert_eq!(parse_output_target("  \t "), Ok(None));
    assert_eq!(parse_output_target(" 96x64 "), Ok(Some((96, 64))));
    assert_eq!(parse_output_target("1920X1080"), Ok(Some((1920, 1080))));
    assert_eq!(parse_output_target("+3x4"), Ok(Some((3, 4))));
    assert_eq!(
        parse_output_target("96"),
        Err("export.dimensions: use WIDTHxHEIGHT".to_owned())
    );
    assert_eq!(
        parse_output_target("ax4"),
        Err("export.dimensions: width must be a positive integer".to_owned())
    );
    assert_eq!(
        parse_output_target("4x"),
        Err("export.dimensions: height must be a positive integer".to_owned())
    );
    assert_eq!(
        parse_output_target("4294967296x1"),
        Err("export.dimensions: width must be a positive integer".to_owned())
    );
    assert_eq!(parse_output_target("4294967295x1"), Ok(Some((4294967295, 1))));
    assert_eq!(
        parse_output_target("3x4x5"),
        Err("export.dimensions: height must be a positive integer".to_owned())
    );
}

#[test]
fn texture_layouts_reject_mismatched_or_oversized_rasters() {
    assert_eq!(
        raw_texture_layout(2, 1, 7),
        Err("Preview raster bytes do not match dimensions.".to_owned())
    );
    assert_eq!(
        raw_texture_layout(0x8000_0000, 1, 0),
        Err("Preview width exceeds GTK limits.".to_owned())
    );
    assert_eq!(
        raw_texture_layout(1, 0x8000_0000, 0),
        Err("Preview height exceeds GTK limits.".to_owned())
    );
    assert_eq!(
        raw_texture_layout(0, 0, 0),
        Ok(TextureLayout {
            width: 0,
            height: 0,
            stride: 0
        })
    );
}

#[test]
fn preview_targets_need_positive_allocations_that_fit() {
    assert_eq!(preview_target_from_allocation(960, 540, 2), Some((1920, 1080)));
    assert_eq!(preview_target_from_allocation(0, 540, 2), None);
    assert_eq!(preview_target_from_allocation(960, -1, 2), None);
    assert_eq!(preview_target_from_allocation(960, 540, 0), None);
    assert_eq!(preview_target_from_allocation(i32::MAX, 1, 3), None);
}

#[test]
fn busy_work_disables_history_and_lifecycle_actions() {
    let mut workspace = summary("raster.png", false, true);
    workspace.can_undo = true;
    workspace.can_redo = true;
    let idle = ui_policy(Some(&workspace), false, false, false);
    assert!(idle.undo_enabled && idle.redo_enabled && idle.close_enabled);
    let loading = ui_policy(Some(&workspace), true, false, false);
    assert!(!loading.undo_enabled && !loading.redo_enabled && !loading.selector_enabled);
    assert_eq!(loading.title, "raster.png — Toniator");
}

#[test]
fn header_title_drops_only_the_application_suffix() {
    assert_eq!(header_title("art.png* — Toniator"), "art.png*");
    assert_eq!(header_title("Toniator"), "Toniator");
    assert_eq!(header_title("a — Toniator — Toniator"), "a");
    assert_eq!(header_title(" — Toniator"), "");
    assert_eq!(header_title("plain"), "plain");
    assert_eq!(header_title(&ui_policy(None, false, false, false).title), "Toniator");
}

#[test]
fn tooltips_follow_dirty_and_preview_state() {
    assert_eq!(window_tooltip(true, true, "art"), "Unsaved changes");
    assert_eq!(window_tooltip(true, false, "art"), "art");
    assert_eq!(window_tooltip(false, true, "Toniator"), "Toniator");
    assert_eq!(preview_tooltip(true, true), "Rendering preview…");
    assert_eq!(preview_tooltip(false, true), "Preview updated.");
    assert_eq!(preview_tooltip(false, false), "No preview yet");
}
