use spx2html::canvas::{resolve_glyphs, GlyphInfo};
use spx2html::engine::{EmitRequest, EngineState, State, StreamType};
use spx2html::fonts::FontRegistry;
use spx2html::report::{EngineError, Warning};

fn emitting(engine: &EngineState) -> &spx2html::engine::EmittingState {
    match &engine.state {
        State::Emitting(e) => e,
        _ => panic!("machine is not emitting"),
    }
}

#[test]
fn header_accepts_only_spx() {
    let engine = EngineState::new();
    assert!(engine.handle_header(StreamType::Spx).is_ok());
    assert!(engine.handle_header(StreamType::Other).is_err());
}

#[test]
fn output_path_two_levels_gives_one_parent_prefix() {
    let mut engine = EngineState::new();
    let r = engine.handle_special(0, 0, b"tdux:setOutputPath a/index.html");
    let (req, warn) = r.unwrap();
    assert!(req.is_none());
    assert!(warn.is_none());
    // `tdux:emit` finishes initialization and finalizes the file.
    let r = engine.handle_special(0, 0, b"tdux:emit");
    let (req, warn) = r.unwrap();
    assert!(warn.is_none());
    match req {
        Some(EmitRequest::RenderFile(job)) => {
            let segs: Vec<&[u8]> = job.output_segments.iter().map(|s| s.as_slice()).collect();
            assert_eq!(segs, vec![&b"a"[..], &b"index.html"[..]]);
        }
        other => panic!("expected a render request, got {:?}", other.is_some()),
    }
    let e = emitting(&engine);
    assert_eq!(e.context.get(b"tduxRelTop").unwrap(), &b"../".to_vec());
    assert_eq!(e.context.get(b"tduxContent").unwrap(), &b"".to_vec());
}

#[test]
fn deep_output_path_gives_more_parent_prefixes() {
    let mut engine = EngineState::new();
    engine.handle_special(0, 0, b"tdux:setOutputPath a/b/index.html").unwrap();
    engine.handle_special(0, 0, b"tdux:emit").unwrap();
    let e = emitting(&engine);
    assert_eq!(e.context.get(b"tduxRelTop").unwrap(), &b"../../".to_vec());
}

#[test]
fn top_level_output_path_gives_empty_prefix() {
    let mut engine = EngineState::new();
    engine.handle_special(0, 0, b"tdux:emit").unwrap();
    let e = emitting(&engine);
    assert_eq!(e.context.get(b"tduxRelTop").unwrap(), &b"".to_vec());
}

#[test]
fn text_after_tag_gets_no_space() {
    let mut engine = EngineState::new();
    assert!(engine.handle_text_and_glyphs(1, b"Hello", &[], &[], &[]).is_none());
    engine.handle_special(0, 0, b"tdux:as em").unwrap();
    assert!(engine.handle_text_and_glyphs(1, b"world", &[], &[], &[]).is_none());
    engine.handle_special(0, 0, b"tdux:ae em").unwrap();
    let e = emitting(&engine);
    assert_eq!(e.current_content, b"Hello<em>world</em>".to_vec());
}

#[test]
fn text_after_text_gets_one_space() {
    let mut engine = EngineState::new();
    engine.handle_text_and_glyphs(1, b"one", &[], &[], &[]);
    engine.handle_text_and_glyphs(1, b"two", &[], &[], &[]);
    let e = emitting(&engine);
    assert_eq!(e.current_content, b"one two".to_vec());
}

#[test]
fn canvas_buffers_glyphs_relative_to_origin() {
    let mut engine = EngineState::new();
    // Enter the emitting phase first: a canvas start in the initializing
    // phase is not this phase's business.
    engine.handle_text_and_glyphs(1, b"", &[], &[], &[]);
    engine.handle_special(100, 200, b"tdux:cs math").unwrap();
    assert!(engine.handle_text_and_glyphs(1, b"x", &[5], &[110], &[205]).is_none());
    let r = engine.handle_special(0, 0, b"tdux:ce math").unwrap();
    match r.0 {
        Some(EmitRequest::LayoutCanvas(canvas)) => {
            assert_eq!(canvas.kind, b"math".to_vec());
            assert_eq!(canvas.depth, 0);
            assert_eq!(canvas.x0, 100);
            assert_eq!(canvas.y0, 200);
            assert_eq!(canvas.glyphs.len(), 1);
            assert_eq!(canvas.glyphs[0].dx, 10);
            assert_eq!(canvas.glyphs[0].dy, 5);
            assert_eq!(canvas.glyphs[0].font_num, 1);
            assert_eq!(canvas.glyphs[0].glyph, 5);
        }
        _ => panic!("expected a layout request"),
    }
    let e = emitting(&engine);
    assert!(e.current_canvas.is_none());
    // No content while the canvas was active.
    assert_eq!(e.current_content, b"".to_vec());
}

#[test]
fn nested_opens_flush_only_at_matching_close() {
    let mut engine = EngineState::new();
    engine.handle_text_and_glyphs(1, b"", &[], &[], &[]);
    engine.handle_special(0, 0, b"tdux:cs dmath").unwrap();
    engine.handle_special(7, 7, b"tdux:cs dmath").unwrap();
    engine.handle_special(9, 9, b"tdux:cs dmath").unwrap();
    // Two closes do not flush.
    let r = engine.handle_special(0, 0, b"tdux:ce dmath").unwrap();
    assert!(r.0.is_none());
    let r = engine.handle_special(0, 0, b"tdux:ce dmath").unwrap();
    assert!(r.0.is_none());
    // The third close flushes exactly once.
    let r = engine.handle_special(0, 0, b"tdux:ce dmath").unwrap();
    assert!(matches!(r.0, Some(EmitRequest::LayoutCanvas(_))));
    // A further close is unpaired.
    let r = engine.handle_special(0, 0, b"tdux:ce dmath").unwrap();
    assert!(matches!(r.1, Some(Warning::UnpairedCanvasEnd(_))));
}

#[test]
fn redefining_a_font_id_is_a_no_op() {
    let mut engine = EngineState::new();
    assert!(engine.needs_font_definition(7));
    let first = engine
        .define_native_font(7, b"fontA.otf".to_vec(), b"fontA.otf", 655360, 0, None, None, None, None)
        .expect("first definition registers");
    assert_eq!(first.fd_key, 0);
    assert!(first.load_data);
    assert!(!engine.needs_font_definition(7));
    // A second definition of the same id changes nothing.
    let again = engine.define_native_font(
        7,
        b"fontB.otf".to_vec(),
        b"fontB.otf",
        131072,
        2,
        Some(1),
        None,
        None,
        None,
    );
    assert!(again.is_none());
    match &engine.state {
        State::Initializing(s) => {
            let info = s.fonts.get(7).expect("font 7 is registered");
            assert_eq!(info.size, 655360);
            assert_eq!(info.face_index, 0);
            assert_eq!(info.fd_key, 0);
            assert_eq!(s.main_body_font_size, 655360);
        }
        _ => panic!("machine left the initializing phase"),
    }
}

#[test]
fn same_file_and_face_share_one_fd_key() {
    let mut engine = EngineState::new();
    let a = engine
        .define_native_font(1, b"main.otf".to_vec(), b"main.otf", 655360, 0, None, None, None, None)
        .unwrap();
    let b = engine
        .define_native_font(2, b"main.otf".to_vec(), b"main.otf", 327680, 0, None, None, None, None)
        .unwrap();
    let c = engine
        .define_native_font(3, b"main.otf".to_vec(), b"main.otf", 327680, 1, None, None, None, None)
        .unwrap();
    assert_eq!(a.fd_key, 0);
    assert!(a.load_data);
    // Same (file, face): the key is shared and the data not loaded again.
    assert_eq!(b.fd_key, 0);
    assert!(!b.load_data);
    // Another face of the same file is a new entry.
    assert_eq!(c.fd_key, 1);
    assert!(c.load_data);
}

#[test]
fn font_url_is_percent_encoded_basename() {
    let mut engine = EngineState::new();
    engine
        .define_native_font(
            1,
            b"dir/fo\x7Fnt.otf".to_vec(),
            b"dir/fo\x7Fnt.otf",
            655360,
            0,
            None,
            None,
            None,
            None,
        )
        .unwrap();
    match &engine.state {
        State::Initializing(s) => {
            let info = s.fonts.get(1).unwrap();
            assert_eq!(info.rel_url, b"fo%7Fnt.otf".to_vec());
        }
        _ => panic!("machine left the initializing phase"),
    }
}

#[test]
fn sealed_content_warns_exactly_once() {
    let mut engine = EngineState::new();
    // Enter the emitting phase without touching the buffer.
    engine.handle_text_and_glyphs(1, b"", &[], &[], &[]);
    let r = engine.handle_special(0, 0, b"tdux:contentFinished").unwrap();
    assert!(matches!(r.0, Some(EmitRequest::EmitFonts { count: 0 })));
    assert!(r.1.is_none());
    // Three text events after sealing: one warning in all, no content.
    let w1 = engine.handle_text_and_glyphs(1, b"a", &[], &[], &[]);
    let w2 = engine.handle_text_and_glyphs(1, b"b", &[], &[], &[]);
    let w3 = engine.handle_text_and_glyphs(1, b"c", &[], &[], &[]);
    assert!(matches!(w1, Some(Warning::PostFinishContent(_))));
    assert!(w2.is_none());
    assert!(w3.is_none());
    let e = emitting(&engine);
    assert_eq!(e.current_content, b"".to_vec());
}

#[test]
fn sealing_with_unemitted_content_warns_and_clears() {
    let mut engine = EngineState::new();
    engine.handle_text_and_glyphs(1, b"leftover", &[], &[], &[]);
    let r = engine.handle_special(0, 0, b"tdux:contentFinished").unwrap();
    assert!(matches!(r.1, Some(Warning::UnemittedContent)));
    let e = emitting(&engine);
    assert_eq!(e.current_content, b"".to_vec());
    assert!(e.content_finished);
}

#[test]
fn content_finished_injects_font_context() {
    let mut engine = EngineState::new();
    engine
        .define_native_font(1, b"main.otf".to_vec(), b"main.otf", 655360, 0, None, None, None, None)
        .unwrap();
    engine.handle_text_and_glyphs(1, b"", &[], &[], &[]);
    let r = engine.handle_special(0, 0, b"tdux:contentFinished").unwrap();
    assert!(matches!(r.0, Some(EmitRequest::EmitFonts { count: 1 })));
    match &mut engine.state {
        State::Emitting(e) => {
            e.apply_content_finished(b"@font-face{}".to_vec());
            assert_eq!(e.context.get(b"tduxFontFaces").unwrap(), &b"@font-face{}".to_vec());
            assert_eq!(e.context.get(b"tduxMainBodyFontFamily").unwrap(), &b"tdux0".to_vec());
        }
        _ => panic!("machine is not emitting"),
    }
}

#[test]
fn provide_file_request_carries_sanitized_segments() {
    let mut engine = EngineState::new();
    let r = engine.handle_special(0, 0, b"tdux:provideFile src.bin out/dir/f.bin").unwrap();
    match r.0 {
        Some(EmitRequest::ProvideFile { src, dest_segments }) => {
            assert_eq!(src, b"src.bin".to_vec());
            let segs: Vec<&[u8]> = dest_segments.iter().map(|s| s.as_slice()).collect();
            assert_eq!(segs, vec![&b"out"[..], &b"dir"[..], &b"f.bin"[..]]);
        }
        _ => panic!("expected a provide-file request"),
    }
}

#[test]
fn provide_file_rejects_escaping_destination() {
    let mut engine = EngineState::new();
    let r = engine.handle_special(0, 0, b"tdux:provideFile src.bin ../escape.bin");
    assert!(r.is_err());
}

#[test]
fn emit_rejects_escaping_output_path() {
    let mut engine = EngineState::new();
    engine.handle_special(0, 0, b"tdux:setOutputPath ../../etc/owned").unwrap();
    let r = engine.handle_special(0, 0, b"tdux:emit");
    assert!(r.is_err());
}

#[test]
fn malformed_template_variable_warns() {
    let mut engine = EngineState::new();
    let r = engine.handle_special(0, 0, b"tdux:setTemplateVariable noseparator").unwrap();
    assert!(matches!(r.1, Some(Warning::MalformedSpecial(_))));
    let r = engine.handle_special(0, 0, b"tdux:setTemplateVariable key some value").unwrap();
    assert!(r.1.is_none());
    engine.handle_text_and_glyphs(1, b"", &[], &[], &[]);
    let e = emitting(&engine);
    assert_eq!(e.context.get(b"key").unwrap(), &b"some value".to_vec());
}

#[test]
fn add_template_is_requested_and_stored() {
    let mut engine = EngineState::new();
    let r = engine.handle_special(0, 0, b"tdux:addTemplate t.html").unwrap();
    match r.0 {
        Some(EmitRequest::ReadTemplate(path)) => {
            assert_eq!(path, b"t.html".to_vec());
        }
        _ => panic!("expected a read-template request"),
    }
    match &mut engine.state {
        State::Initializing(s) => {
            s.add_template(b"t.html".to_vec(), b"<html>{{ tduxContent }}</html>".to_vec());
            assert_eq!(
                s.templates.get(b"t.html").unwrap(),
                &b"<html>{{ tduxContent }}</html>".to_vec()
            );
        }
        _ => panic!("machine left the initializing phase"),
    }
}

#[test]
fn provide_file_before_initialization_warns_too_soon() {
    let mut engine = EngineState::new();
    // The bare prefix without its arguments does not trigger initialization
    // handling of the payload itself; a malformed one still warns.
    let r = engine.handle_special(0, 0, b"tdux:setTemplate t.html").unwrap();
    assert!(r.1.is_none());
    match &engine.state {
        State::Initializing(s) => {
            assert_eq!(s.next_template_path, b"t.html".to_vec());
        }
        _ => panic!("machine left the initializing phase"),
    }
}

#[test]
fn glyph_run_outside_canvas_warns() {
    let mut engine = EngineState::new();
    let w = engine.handle_glyph_run(1, &[3], &[10], &[20]);
    assert!(matches!(w, Some(Warning::GlyphRunOutsideCanvas)));
    let e = emitting(&engine);
    assert_eq!(e.current_content, b"".to_vec());
}

#[test]
fn end_of_run_flushes_remaining_content() {
    let mut engine = EngineState::new();
    engine.handle_text_and_glyphs(1, b"tail", &[], &[], &[]);
    let job = engine.finished().unwrap().expect("content pending");
    let segs: Vec<&[u8]> = job.output_segments.iter().map(|s| s.as_slice()).collect();
    assert_eq!(segs, vec![&b"index.html"[..]]);
    let e = emitting(&engine);
    assert_eq!(e.context.get(b"tduxContent").unwrap(), &b"tail".to_vec());
    // A second end-of-run has nothing left to write.
    assert!(engine.finished().unwrap().is_none());
}

#[test]
fn finished_canvas_wrapper_joins_content_with_space() {
    let mut engine = EngineState::new();
    engine.handle_text_and_glyphs(1, b"before", &[], &[], &[]);
    engine.handle_special(0, 0, b"tdux:cs math").unwrap();
    let r = engine.handle_special(0, 0, b"tdux:ce math").unwrap();
    assert!(matches!(r.0, Some(EmitRequest::LayoutCanvas(_))));
    match &mut engine.state {
        State::Emitting(e) => {
            // The space before the block was already inserted at the close.
            assert_eq!(e.current_content, b"before ".to_vec());
            e.finish_canvas(b"<span class=\"canvas canvas-inline\"></span>");
            assert_eq!(
                e.current_content,
                b"before <span class=\"canvas canvas-inline\"></span>".to_vec()
            );
        }
        _ => panic!("machine is not emitting"),
    }
}

#[test]
fn undeclared_canvas_font_is_fatal() {
    let fonts = FontRegistry::new();
    let glyphs = vec![GlyphInfo { dx: 0, dy: 0, font_num: 9, glyph: 1 }];
    match resolve_glyphs(&fonts, &glyphs) {
        Err(EngineError::UndeclaredFont(9)) => {}
        _ => panic!("an undeclared font id in a canvas must be fatal"),
    }
}
