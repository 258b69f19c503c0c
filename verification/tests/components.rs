use spx2html::assets::{AssetOrigin, Assets, Special};
use spx2html::bytes::{basename, format_u64, split_once};
use spx2html::canvas::{
    canvas_bounds, plan_glyph, AlternateMapping, BBox, GlyphMetrics, MapEntry, ResolvedGlyph,
};
use spx2html::dict::Dict;
use spx2html::fonts::{font_family, font_family_vg};
use spx2html::html::{assemble_canvas_wrapper, assemble_glyph_span};
use spx2html::manifest;
use spx2html::paths::{rel_top_prefix, sanitize_path};
use spx2html::report::{EngineError, Warning};

#[test]
fn sanitize_accepts_plain_paths_and_skips_empty_segments() {
    let segs = sanitize_path(b"a//b/index.html").unwrap();
    let segs: Vec<&[u8]> = segs.iter().map(|s| s.as_slice()).collect();
    assert_eq!(segs, vec![&b"a"[..], &b"b"[..], &b"index.html"[..]]);
}

#[test]
fn sanitize_rejects_dotdot_segments() {
    match sanitize_path(b"a/../b") {
        Err(EngineError::PathDotDot(p)) => assert_eq!(p, b"a/../b".to_vec()),
        _ => panic!("a dotdot segment must be fatal"),
    }
}

#[test]
fn sanitize_rejects_rooted_segments() {
    match sanitize_path(b"a/\\etc/b") {
        Err(EngineError::PathRooted(p)) => assert_eq!(p, b"a/\\etc/b".to_vec()),
        _ => panic!("a rooted segment must be fatal"),
    }
}

#[test]
fn rel_top_prefix_repeats_per_level() {
    assert_eq!(rel_top_prefix(0), b"".to_vec());
    assert_eq!(rel_top_prefix(1), b"".to_vec());
    assert_eq!(rel_top_prefix(2), b"../".to_vec());
    assert_eq!(rel_top_prefix(4), b"../../../".to_vec());
}

#[test]
fn format_u64_writes_decimal_digits() {
    assert_eq!(format_u64(0), b"0".to_vec());
    assert_eq!(format_u64(7), b"7".to_vec());
    assert_eq!(format_u64(1234567890), b"1234567890".to_vec());
    assert_eq!(format_u64(u64::MAX), b"18446744073709551615".to_vec());
}

#[test]
fn split_once_splits_at_first_separator() {
    let (a, b) = split_once(b"src.png assets/img.png", b' ').unwrap();
    assert_eq!(a, b"src.png".to_vec());
    assert_eq!(b, b"assets/img.png".to_vec());
    let (a, b) = split_once(b"k v w", b' ').unwrap();
    assert_eq!(a, b"k".to_vec());
    assert_eq!(b, b"v w".to_vec());
    assert!(split_once(b"nospace", b' ').is_none());
}

#[test]
fn basename_takes_what_follows_the_last_slash() {
    assert_eq!(basename(b"x/y/z.otf"), b"z.otf".to_vec());
    assert_eq!(basename(b"plain.otf"), b"plain.otf".to_vec());
    assert_eq!(basename(b"dir/"), b"".to_vec());
}

#[test]
fn font_families_are_named_by_key_and_variant() {
    assert_eq!(font_family(0), b"tdux0".to_vec());
    assert_eq!(font_family(12), b"tdux12".to_vec());
    assert_eq!(font_family_vg(3, 0), b"tdux3vg0".to_vec());
}

#[test]
fn dict_keeps_last_value_per_key() {
    let mut d: Dict<Vec<u8>> = Dict::new();
    d.insert(b"k".to_vec(), b"one".to_vec());
    d.insert(b"k".to_vec(), b"two".to_vec());
    d.insert(b"m".to_vec(), b"x".to_vec());
    assert_eq!(d.get(b"k").unwrap(), &b"two".to_vec());
    assert_eq!(d.get(b"m").unwrap(), &b"x".to_vec());
    assert_eq!(d.len(), 2);
    assert!(d.get(b"absent").is_none());
}

fn glyph(dx: i64, dy: i64) -> ResolvedGlyph {
    ResolvedGlyph {
        dx,
        dy,
        glyph: 1,
        fd_key: 0,
        size: 655360,
        rel_url: b"f.otf".to_vec(),
        face_index: 0,
    }
}

#[test]
fn canvas_bounds_match_the_metric_formula() {
    // One glyph at offset (10, 5), metrics lsb=2 advance=10 ascent=15
    // descent=-3 (descent is stored negative): x spans dx-lsb .. dx+advance
    // = 8..20, y spans dy-ascent .. dy-descent = -10..8.
    let glyphs = vec![glyph(10, 5)];
    let metrics = vec![Some(GlyphMetrics { lsb: 2, advance: 10, ascent: 15, descent: -3 })];
    let b = canvas_bounds(&glyphs, &metrics);
    assert_eq!(b, BBox { x_min: 8, x_max: 20, y_min: -10, y_max: 8 });
}

#[test]
fn canvas_bounds_union_and_skip_missing_metrics() {
    let glyphs = vec![glyph(0, 0), glyph(100, 50), glyph(-1000, -1000)];
    let m = GlyphMetrics { lsb: 0, advance: 8, ascent: 10, descent: -2 };
    let metrics = vec![Some(m), Some(m), None];
    let b = canvas_bounds(&glyphs, &metrics);
    assert_eq!(b, BBox { x_min: 0, x_max: 108, y_min: -10, y_max: 52 });
}

#[test]
fn empty_canvas_has_zero_box() {
    let b = canvas_bounds(&vec![], &vec![]);
    assert_eq!(b, BBox { x_min: 0, x_max: 0, y_min: 0, y_max: 0 });
}

#[test]
fn direct_mapping_uses_plain_family() {
    let (ch, family) = plan_glyph(2, &MapEntry::Direct('x'), None);
    assert_eq!(ch, 'x');
    assert_eq!(family, b"tdux2".to_vec());
}

#[test]
fn variant_mapping_uses_alternate_family() {
    let alt = AlternateMapping { usv: '∑', index: 1 };
    let (ch, family) = plan_glyph(0, &MapEntry::MathGrowingVariant('∫'), Some(&alt));
    assert_eq!(ch, '∑');
    assert_eq!(family, b"tdux0vg1".to_vec());
}

#[test]
fn glyph_span_is_assembled_verbatim() {
    let span = assemble_glyph_span('∑', b"tdux0vg1", b"1.5", b"0.1", b"10");
    assert_eq!(
        String::from_utf8(span).unwrap(),
        "<span class=\"ci\" style=\"top: 1.5rem; left: 0.1rem; font-size: 10rem; font-family: tdux0vg1\">∑</span>"
    );
}

#[test]
fn inline_wrapper_carries_vertical_align() {
    let w = assemble_canvas_wrapper(true, b"0.12", b"0.23", b"-0.08", b"-0.13", b"INNER");
    assert_eq!(
        String::from_utf8(w).unwrap(),
        "<span class=\"canvas canvas-inline\" style=\"width: 0.12rem; height: 0.23rem; padding-left: -0.08rem; vertical-align: -0.13rem\">INNER</span>"
    );
}

#[test]
fn block_wrapper_has_no_vertical_align() {
    let w = assemble_canvas_wrapper(false, b"1", b"2", b"0", b"", b"");
    assert_eq!(
        String::from_utf8(w).unwrap(),
        "<div class=\"canvas canvas-block\" style=\"width: 1rem; height: 2rem; padding-left: 0rem\"></div>"
    );
}

#[test]
fn inline_wrapper_values_can_come_from_device_units() {
    // The caller converts device units to root-em floats; with a scale of
    // 0.5 the box x 8..20, y -10..13 yields these styles.
    let rems_per_tex = 0.5f32;
    let width = format!("{}", (20 - 8) as f32 * rems_per_tex);
    let height = format!("{}", (13 - -10) as f32 * rems_per_tex);
    let padding = format!("{}", -8 as f32 * rems_per_tex);
    let valign = format!("{}", -13 as f32 * rems_per_tex);
    let w = assemble_canvas_wrapper(
        true,
        width.as_bytes(),
        height.as_bytes(),
        padding.as_bytes(),
        valign.as_bytes(),
        b"",
    );
    assert_eq!(
        String::from_utf8(w).unwrap(),
        "<span class=\"canvas canvas-inline\" style=\"width: 6rem; height: 11.5rem; padding-left: -4rem; vertical-align: -6.5rem\"></span>"
    );
}

#[test]
fn assets_register_copy_and_font_css() {
    let mut assets = Assets::new();
    let (ok, warn) = assets.try_handle_special(Special::ProvideFile(
        b"src.png assets/img.png".to_vec(),
    ));
    assert!(ok);
    assert!(warn.is_none());
    let (ok, warn) =
        assets.try_handle_special(Special::ProvideSpecial(b"font-css style/tdux.css".to_vec()));
    assert!(ok);
    assert!(warn.is_none());
    let plan = assets.emit_plan().unwrap();
    assert_eq!(plan.len(), 2);
    let segs: Vec<&[u8]> = plan[0].0.iter().map(|s| s.as_slice()).collect();
    assert_eq!(segs, vec![&b"assets"[..], &b"img.png"[..]]);
    assert!(matches!(&plan[0].1, AssetOrigin::Copy(src) if src == &b"src.png".to_vec()));
    assert!(matches!(&plan[1].1, AssetOrigin::FontCss));
}

#[test]
fn assets_warn_on_malformed_and_unsupported_specials() {
    let mut assets = Assets::new();
    let (ok, warn) = assets.try_handle_special(Special::ProvideFile(b"nospace".to_vec()));
    assert!(!ok);
    assert!(matches!(warn, Some(Warning::MalformedSpecial(_))));
    let (ok, warn) =
        assets.try_handle_special(Special::ProvideSpecial(b"mystery out.bin".to_vec()));
    assert!(!ok);
    assert!(matches!(warn, Some(Warning::UnsupportedSpecial(_))));
    let (ok, warn) = assets.try_handle_special(Special::Other);
    assert!(!ok);
    assert!(warn.is_none());
}

#[test]
fn last_registration_wins_per_destination() {
    let mut assets = Assets::new();
    assets.try_handle_special(Special::ProvideFile(b"first.png img.png".to_vec()));
    assets.try_handle_special(Special::ProvideFile(b"second.png img.png".to_vec()));
    let plan = assets.emit_plan().unwrap();
    assert_eq!(plan.len(), 1);
    assert!(matches!(&plan[0].1, AssetOrigin::Copy(src) if src == &b"second.png".to_vec()));
}

#[test]
fn emit_plan_fails_on_escaping_destination() {
    let mut assets = Assets::new();
    assets.try_handle_special(Special::ProvideFile(b"src.png ../img.png".to_vec()));
    assert!(assets.emit_plan().is_err());
}

#[test]
fn serialized_manifest_preserves_origins() {
    let mut assets = Assets::new();
    assets.try_handle_special(Special::ProvideFile(b"src.png assets/img.png".to_vec()));
    assets.try_handle_special(Special::ProvideSpecial(b"font-css style.css".to_vec()));
    let css = manifest::FontEnsembleAssetData {
        families: vec![(
            b"tdux0".to_vec(),
            manifest::FontFamilyAssetData {
                faces: vec![(manifest::FaceType::Regular, b"main.otf".to_vec())],
            },
        )],
    };
    let out = assets.into_serialize(Dict::new(), &css);
    match out.get(b"assets/img.png").unwrap() {
        manifest::AssetOrigin::Copy(src) => assert_eq!(src, &b"src.png".to_vec()),
        _ => panic!("the copy origin must be preserved"),
    }
    match out.get(b"style.css").unwrap() {
        manifest::AssetOrigin::FontCss(e) => {
            assert_eq!(e.families.len(), 1);
            assert_eq!(e.families[0].0, b"tdux0".to_vec());
            assert_eq!(e.families[0].1.faces.len(), 1);
            assert!(matches!(e.families[0].1.faces[0].0, manifest::FaceType::Regular));
            assert_eq!(e.families[0].1.faces[0].1, b"main.otf".to_vec());
        }
        _ => panic!("the font-css payload must be preserved"),
    }
    assert_eq!(out.len(), 2);
}

#[test]
fn glyph_span_encodes_wide_characters() {
    let span = assemble_glyph_span('é', b"tdux1", b"0", b"0", b"1");
    assert_eq!(
        String::from_utf8(span).unwrap(),
        "<span class=\"ci\" style=\"top: 0rem; left: 0rem; font-size: 1rem; font-family: tdux1\">é</span>"
    );
    let span = assemble_glyph_span('𝒳', b"tdux1", b"0", b"0", b"1");
    assert_eq!(
        String::from_utf8(span).unwrap(),
        "<span class=\"ci\" style=\"top: 0rem; left: 0rem; font-size: 1rem; font-family: tdux1\">𝒳</span>"
    );
}
