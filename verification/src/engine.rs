//! The event-driven state machine consuming the glyph-event stream.
//!
//! The machine is two-phase: an initializing phase collects templates,
//! variables and font declarations; the first event that needs rendering
//! context converts it, irreversibly, into an emitting phase that
//! accumulates content and lays out canvases. Handlers never perform I/O:
//! where the stream demands outside work (reading a template, copying a
//! file, rendering an output file, emitting font CSS, querying font
//! metrics) the handler returns a request describing it, and the caller
//! performs it and, where needed, hands the result back.

use vstd::prelude::*;

use crate::bytes::{basename_of, spec_split_first, starts_with};
use crate::canvas::CanvasState;
use crate::dict::Dict;
use crate::fonts::{percent_encoded, FdKeyTable, FontInfo, FontRegistry, FontRole};
use crate::html::{spec_close_tag, spec_open_tag, spec_text_append};
use crate::paths::{
    clean_segments, dotdot_slash_reps, levels_of, path_ok, rel_top_reps, sanitize_path,
};
use crate::protocol::{
    spec_cmd_content_finished, spec_cmd_emit, spec_key_content, spec_key_rel_top,
    spec_pfx_add_template, spec_pfx_auto_end, spec_pfx_auto_start, spec_pfx_canvas_end,
    spec_pfx_canvas_start, spec_pfx_provide_file, spec_pfx_provide_file_bare,
    spec_pfx_set_output_path, spec_pfx_set_template, spec_pfx_set_variable,
};
use crate::report::{EngineError, Warning};

verus! {

/// The stream type announced by the header.
pub enum StreamType {
    /// The expected positioned-glyph stream.
    Spx,
    /// Anything else; fatal.
    Other,
}

/// What an initializing-phase special asks for.
pub ghost enum InitCmd {
    /// Read a template and register its text.
    AddTemplate(Seq<u8>),
    /// Record the template of the next finalized file.
    SetTemplate(Seq<u8>),
    /// Record the output path of the next finalized file.
    SetOutputPath(Seq<u8>),
    /// Store a template variable.
    SetVariable(Seq<u8>),
    /// A provide-file before initialization: warned and dropped.
    ProvideFile,
    /// Not this phase's business.
    Other,
}

/// Dispatch of an initializing-phase special on its exact prefix.
pub open spec fn classify_init_special(c: Seq<u8>) -> InitCmd {
    if starts_with(c, spec_pfx_add_template()) {
        InitCmd::AddTemplate(c.skip(spec_pfx_add_template().len() as int))
    } else if starts_with(c, spec_pfx_set_template()) {
        InitCmd::SetTemplate(c.skip(spec_pfx_set_template().len() as int))
    } else if starts_with(c, spec_pfx_set_output_path()) {
        InitCmd::SetOutputPath(c.skip(spec_pfx_set_output_path().len() as int))
    } else if starts_with(c, spec_pfx_set_variable()) {
        InitCmd::SetVariable(c.skip(spec_pfx_set_variable().len() as int))
    } else if starts_with(c, spec_pfx_provide_file()) {
        InitCmd::ProvideFile
    } else {
        InitCmd::Other
    }
}

/// The initializing phase: templates, pending paths, declared fonts and
/// template variables, before any content is emitted.
pub struct InitializationState {
    /// Template text keyed by path.
    pub templates: Dict<Vec<u8>>,
    /// Template used by the next finalized file.
    pub next_template_path: Vec<u8>,
    /// Output path of the next finalized file.
    pub next_output_path: Vec<u8>,
    /// The declared fonts.
    pub fonts: FontRegistry,
    /// Size of the last declared font: the stream declares the main body
    /// font last.
    pub main_body_font_size: i32,
    /// Dedup table assigning dense keys to (file, face) pairs.
    pub font_data_keys: FdKeyTable,
    /// Template variables.
    pub variables: Dict<Vec<u8>>,
}

impl InitializationState {
    /// The dictionaries hold no duplicate keys.
    pub open spec fn wf(&self) -> bool {
        self.templates.wf() && self.variables.wf()
    }

    /// Everything except the two pending paths is unchanged.
    pub open spec fn same_but_paths(self, o: InitializationState) -> bool {
        &&& self.templates == o.templates
        &&& self.fonts == o.fonts
        &&& self.main_body_font_size == o.main_body_font_size
        &&& self.font_data_keys == o.font_data_keys
        &&& self.variables == o.variables
    }
}

impl Default for InitializationState {
    /// The fresh machine: no templates, no fonts, no variables, and
    /// `index.html` as the output path to use when none is ever set.
    fn default() -> (r: Self)
        ensures
            r.templates.entries() == Seq::<(Seq<u8>, Vec<u8>)>::empty(),
            r.next_template_path@ == Seq::<u8>::empty(),
            r.next_output_path@ == crate::protocol::spec_default_output_path(),
            r.fonts.entries() == Seq::<(i32, FontInfo)>::empty(),
            r.main_body_font_size == 0,
            r.font_data_keys.keys() == Seq::<(Seq<u8>, u32)>::empty(),
            r.variables.entries() == Seq::<(Seq<u8>, Vec<u8>)>::empty(),
            r.wf(),
    {
        InitializationState {
            templates: Dict::new(),
            next_template_path: Vec::new(),
            next_output_path: crate::protocol::default_output_path(),
            fonts: FontRegistry::new(),
            main_body_font_size: 0,
            font_data_keys: FdKeyTable::new(),
            variables: Dict::new(),
        }
    }
}

/// Behavior of one initializing-phase special: `req` is the template path
/// to read, if any.
pub open spec fn init_special_rel(
    pre: InitializationState,
    post: InitializationState,
    c: Seq<u8>,
    req: Option<Vec<u8>>,
    warn: Option<Warning>,
) -> bool {
    match classify_init_special(c) {
        InitCmd::AddTemplate(p) => {
            &&& post == pre
            &&& req matches Some(q) && q@ == p
            &&& warn is None
        },
        InitCmd::SetTemplate(p) => {
            &&& post.next_template_path@ == p
            &&& post.next_output_path == pre.next_output_path
            &&& post.same_but_paths(pre)
            &&& req is None
            &&& warn is None
        },
        InitCmd::SetOutputPath(p) => {
            &&& post.next_output_path@ == p
            &&& post.next_template_path == pre.next_template_path
            &&& post.same_but_paths(pre)
            &&& req is None
            &&& warn is None
        },
        InitCmd::SetVariable(rest) => {
            &&& req is None
            &&& match spec_split_first(rest, 32) {
                Some(parts) => {
                    &&& warn is None
                    &&& post.variables.spec_get(parts.0) matches Some(v) && v@ == parts.1
                    &&& forall|k: Seq<u8>|
                        k != parts.0 ==> post.variables.spec_get(k) == pre.variables.spec_get(k)
                    &&& post.templates == pre.templates
                    &&& post.fonts == pre.fonts
                    &&& post.main_body_font_size == pre.main_body_font_size
                    &&& post.font_data_keys == pre.font_data_keys
                    &&& post.next_template_path == pre.next_template_path
                    &&& post.next_output_path == pre.next_output_path
                },
                None => post == pre && warn matches Some(Warning::MalformedSpecial(_)),
            }
        },
        InitCmd::ProvideFile => {
            &&& post == pre
            &&& req is None
            &&& warn == Some(Warning::TooSoonProvideFile)
        },
        InitCmd::Other => {
            &&& post == pre
            &&& req is None
            &&& warn is None
        },
    }
}

/// What registering one native font produces: the dense key, whether the
/// font data still has to be loaded (the key is new), and the basename
/// under which the caller writes the font file.
pub struct FontDefOutcome {
    /// The dense key into the font-data table.
    pub fd_key: usize,
    /// The (file, face) pair was new: load the font data once.
    pub load_data: bool,
    /// Basename of the opened path; the output copy of the font file.
    pub basename: Vec<u8>,
}

/// Behavior of registering one native font declaration.
pub open spec fn define_font_rel(
    pre: InitializationState,
    post: InitializationState,
    font_num: i32,
    resolved_name: Vec<u8>,
    texpath: Seq<u8>,
    size: i32,
    face_index: u32,
    color_rgba: Option<u32>,
    extend: Option<u32>,
    slant: Option<u32>,
    embolden: Option<u32>,
    r: Option<FontDefOutcome>,
) -> bool {
    if pre.fonts.contains(font_num) {
        r is None && post == pre
    } else {
        r matches Some(o) && {
            let was = crate::fonts::pair_index(pre.font_data_keys.keys(), resolved_name@,
                face_index);
            &&& o.load_data == (was == -1)
            &&& (was == -1 ==> o.fd_key == pre.font_data_keys.keys().len()
                && post.font_data_keys.keys() == pre.font_data_keys.keys().push(
                (resolved_name@, face_index),
            ))
            &&& (was != -1 ==> o.fd_key == was && post.font_data_keys.keys()
                == pre.font_data_keys.keys())
            &&& o.basename@ == basename_of(texpath)
            &&& post.fonts.entries().len() == pre.fonts.entries().len() + 1
            &&& post.fonts.spec_get(font_num) matches Some(fi) && {
                &&& fi.role is MainBody
                &&& fi.rel_url@ == percent_encoded(basename_of(texpath))
                &&& fi.fd_key == o.fd_key
                &&& fi.size == size
                &&& fi.face_index == face_index
                &&& fi.color_rgba == color_rgba
                &&& fi.extend == extend
                &&& fi.slant == slant
                &&& fi.embolden == embolden
            }
            &&& forall|k: i32| k != font_num ==> post.fonts.spec_get(k) == pre.fonts.spec_get(k)
            &&& post.main_body_font_size == size
            &&& post.templates == pre.templates
            &&& post.variables == pre.variables
            &&& post.next_template_path == pre.next_template_path
            &&& post.next_output_path == pre.next_output_path
        }
    }
}

impl InitializationState {
    /// Handles an initializing-phase special; an `addTemplate` asks the
    /// caller to read the named template and hand its text to
    /// [`InitializationState::add_template`].
    pub fn handle_special(&mut self, contents: &[u8]) -> (r: (Option<Vec<u8>>, Option<Warning>))
        requires
            old(self).wf(),
        ensures
            final(self).wf(),
            init_special_rel(*old(self), *final(self), contents@, r.0, r.1),
    {
        let pfx = crate::protocol::pfx_add_template();
        if let Some(path) = crate::bytes::strip_prefix(contents, pfx.as_slice()) {
            return (Some(path), None);
        }
        let pfx = crate::protocol::pfx_set_template();
        if let Some(path) = crate::bytes::strip_prefix(contents, pfx.as_slice()) {
            self.next_template_path = path;
            return (None, None);
        }
        let pfx = crate::protocol::pfx_set_output_path();
        if let Some(path) = crate::bytes::strip_prefix(contents, pfx.as_slice()) {
            self.next_output_path = path;
            return (None, None);
        }
        let pfx = crate::protocol::pfx_set_variable();
        if let Some(rest) = crate::bytes::strip_prefix(contents, pfx.as_slice()) {
            match crate::bytes::split_once(rest.as_slice(), 32) {
                Some(parts) => {
                    self.variables.insert(parts.0, parts.1);
                    return (None, None);
                },
                None => {
                    return (None, Some(Warning::MalformedSpecial(rest)));
                },
            }
        }
        let pfx = crate::protocol::pfx_provide_file();
        if let Some(_rest) = crate::bytes::strip_prefix(contents, pfx.as_slice()) {
            return (None, Some(Warning::TooSoonProvideFile));
        }
        (None, None)
    }

    /// Stores the text of a template read by the caller, keyed by path.
    pub fn add_template(&mut self, path: Vec<u8>, text: Vec<u8>)
        requires
            old(self).wf(),
        ensures
            final(self).wf(),
            final(self).templates.spec_get(path@) matches Some(t) && t@ == text@,
            forall|k: Seq<u8>|
                k != path@ ==> final(self).templates.spec_get(k) == old(self).templates.spec_get(
                    k,
                ),
            final(self).next_template_path == old(self).next_template_path,
            final(self).next_output_path == old(self).next_output_path,
            final(self).fonts == old(self).fonts,
            final(self).main_body_font_size == old(self).main_body_font_size,
            final(self).font_data_keys == old(self).font_data_keys,
            final(self).variables == old(self).variables,
    {
        self.templates.insert(path, text);
    }

    /// Registers one native font declaration. A font id already declared
    /// is left exactly as it was; otherwise the (resolved file, face)
    /// pair is interned, the percent-encoded basename becomes the font's
    /// relative URL, and the declared size overwrites the main body font
    /// size: the stream declares the main body font last, and this
    /// bookkeeping relies on that order.
    pub fn register_native_font(
        &mut self,
        font_num: i32,
        resolved_name: Vec<u8>,
        texpath: &[u8],
        size: i32,
        face_index: u32,
        color_rgba: Option<u32>,
        extend: Option<u32>,
        slant: Option<u32>,
        embolden: Option<u32>,
    ) -> (r: Option<FontDefOutcome>)
        requires
            old(self).wf(),
        ensures
            final(self).wf(),
            define_font_rel(
                *old(self),
                *final(self),
                font_num,
                resolved_name,
                texpath@,
                size,
                face_index,
                color_rgba,
                extend,
                slant,
                embolden,
                r,
            ),
    {
        if self.fonts.contains_id(font_num) {
            return None;
        }
        let (fd_key, load_data) = self.font_data_keys.intern(resolved_name, face_index);
        let base = crate::bytes::basename(texpath);
        let rel_url = crate::fonts::percent_encode_controls(base.as_slice());
        self.main_body_font_size = size;
        let info = FontInfo {
            role: FontRole::MainBody,
            rel_url,
            fd_key,
            size,
            face_index,
            color_rgba,
            extend,
            slant,
            embolden,
        };
        self.fonts.insert_first(font_num, info);
        Some(FontDefOutcome { fd_key, load_data, basename: base })
    }
}

/// The emitting phase: the machine after its first rendering-context
/// event.
pub struct EmittingState {
    /// The template context; committed from the variables at the
    /// transition, extended by every later variable, content and prefix
    /// injection.
    pub context: Dict<Vec<u8>>,
    /// The registered template texts, for the caller's template engine.
    pub templates: Dict<Vec<u8>>,
    /// The declared fonts.
    pub fonts: FontRegistry,
    /// Size of the main body font, TeX-scaled; the root-em scale is its
    /// reciprocal.
    pub main_body_font_size: i32,
    /// Dedup table assigning dense keys to (file, face) pairs.
    pub fd_keys: FdKeyTable,
    /// Template used by the next finalized file.
    pub next_template_path: Vec<u8>,
    /// Output path of the next finalized file.
    pub next_output_path: Vec<u8>,
    /// The accumulated HTML content.
    pub current_content: Vec<u8>,
    /// The active canvas, if any.
    pub current_canvas: Option<CanvasState>,
    /// The content was sealed by `contentFinished`.
    pub content_finished: bool,
    /// The one post-seal warning was already issued.
    pub content_finished_warning_issued: bool,
}

/// The initializing state this emitting state was converted from: the
/// bookkeeping moves over, the variables become the context, the content
/// starts empty with no canvas and both flags clear.
pub open spec fn init_finished_rel(s: InitializationState, e: EmittingState) -> bool {
    &&& e.context == s.variables
    &&& e.templates == s.templates
    &&& e.fonts == s.fonts
    &&& e.main_body_font_size == s.main_body_font_size
    &&& e.fd_keys == s.font_data_keys
    &&& e.next_template_path == s.next_template_path
    &&& e.next_output_path == s.next_output_path
    &&& e.current_content@ == Seq::<u8>::empty()
    &&& e.current_canvas is None
    &&& !e.content_finished
    &&& !e.content_finished_warning_issued
}

impl InitializationState {
    /// Consumes the initializing phase into the emitting phase; the
    /// caller commits the templates and the context to its template
    /// engine.
    pub fn initialization_finished(self) -> (r: EmittingState)
        requires
            self.wf(),
        ensures
            init_finished_rel(self, r),
            r.wf(),
    {
        let r = EmittingState {
            context: self.variables,
            templates: self.templates,
            fonts: self.fonts,
            main_body_font_size: self.main_body_font_size,
            fd_keys: self.font_data_keys,
            next_template_path: self.next_template_path,
            next_output_path: self.next_output_path,
            current_content: Vec::new(),
            current_canvas: None,
            content_finished: false,
            content_finished_warning_issued: false,
        };
        proof {
            assert(r.current_content@ =~= Seq::<u8>::empty());
        }
        r
    }
}

/// What an emitting-phase special asks for.
pub ghost enum EmitCmd {
    /// Append an opening tag.
    AutoStart(Seq<u8>),
    /// Append a closing tag.
    AutoEnd(Seq<u8>),
    /// Open or deepen a canvas.
    CanvasStart(Seq<u8>),
    /// Close one level of the canvas.
    CanvasEnd(Seq<u8>),
    /// Finalize and write the current file.
    Emit,
    /// Record the template of the next finalized file.
    SetTemplate(Seq<u8>),
    /// Record the output path of the next finalized file.
    SetOutputPath(Seq<u8>),
    /// Set a template variable.
    SetVariable(Seq<u8>),
    /// Copy a file into the output tree now.
    ProvideFile(Seq<u8>),
    /// Seal the content.
    ContentFinished,
    /// Not this stage's business.
    Other,
}

/// Dispatch of an emitting-phase special on its exact prefix.
pub open spec fn classify_emit_special(c: Seq<u8>) -> EmitCmd {
    if starts_with(c, spec_pfx_auto_start()) {
        EmitCmd::AutoStart(c.skip(spec_pfx_auto_start().len() as int))
    } else if starts_with(c, spec_pfx_auto_end()) {
        EmitCmd::AutoEnd(c.skip(spec_pfx_auto_end().len() as int))
    } else if starts_with(c, spec_pfx_canvas_start()) {
        EmitCmd::CanvasStart(c.skip(spec_pfx_canvas_start().len() as int))
    } else if starts_with(c, spec_pfx_canvas_end()) {
        EmitCmd::CanvasEnd(c.skip(spec_pfx_canvas_end().len() as int))
    } else if c == spec_cmd_emit() {
        EmitCmd::Emit
    } else if starts_with(c, spec_pfx_set_template()) {
        EmitCmd::SetTemplate(c.skip(spec_pfx_set_template().len() as int))
    } else if starts_with(c, spec_pfx_set_output_path()) {
        EmitCmd::SetOutputPath(c.skip(spec_pfx_set_output_path().len() as int))
    } else if starts_with(c, spec_pfx_set_variable()) {
        EmitCmd::SetVariable(c.skip(spec_pfx_set_variable().len() as int))
    } else if starts_with(c, spec_pfx_provide_file()) {
        EmitCmd::ProvideFile(c.skip(spec_pfx_provide_file().len() as int))
    } else if c == spec_cmd_content_finished() {
        EmitCmd::ContentFinished
    } else {
        EmitCmd::Other
    }
}

/// The commands that are ignored, with one warning in all, once the
/// content is sealed; only `emit` and `contentFinished` still run.
pub open spec fn sealed_gates(cmd: EmitCmd) -> bool {
    match cmd {
        EmitCmd::AutoStart(_) => true,
        EmitCmd::AutoEnd(_) => true,
        EmitCmd::CanvasStart(_) => true,
        EmitCmd::CanvasEnd(_) => true,
        EmitCmd::SetTemplate(_) => true,
        EmitCmd::SetOutputPath(_) => true,
        EmitCmd::SetVariable(_) => true,
        EmitCmd::ProvideFile(_) => true,
        EmitCmd::Emit => false,
        EmitCmd::ContentFinished => false,
        EmitCmd::Other => false,
    }
}

/// A request the emitting machine hands its caller.
#[derive(Debug)]
pub enum EmitRequest {
    /// Read the named template and hand its text back (initializing
    /// phase only).
    ReadTemplate(Vec<u8>),
    /// Copy `src` from the source stack to the sanitized destination
    /// under the output base.
    ProvideFile {
        /// The source path.
        src: Vec<u8>,
        /// The sanitized destination segments.
        dest_segments: Vec<Vec<u8>>,
    },
    /// Render the current file: read the template fresh, render it with
    /// the machine's context, write it to the sanitized output path.
    RenderFile(FileRenderJob),
    /// Lay out the closed canvas: resolve its glyphs, query metrics and
    /// mappings, assemble the wrapper, and hand it back.
    LayoutCanvas(CanvasState),
    /// Emit every accumulated custom font (dense keys `0..count`) and
    /// hand back the accumulated font CSS.
    EmitFonts {
        /// Number of font-data entries.
        count: usize,
    },
}

/// One file finalization: the template to load fresh and the sanitized
/// output segments; the context to render with lives on in the machine.
#[derive(Debug)]
pub struct FileRenderJob {
    /// Template path to read at finalize time, deliberately uncached.
    pub template_path: Vec<u8>,
    /// The sanitized output path segments.
    pub output_segments: Vec<Vec<u8>>,
}

/// The content buffer joined for a following block: a single space unless
/// it is empty or ends with `>`.
pub open spec fn spec_space_join(c: Seq<u8>) -> Seq<u8> {
    if c.len() > 0 && c.last() != 62 {
        c + seq![32u8]
    } else {
        c
    }
}

impl EmittingState {
    /// Dictionaries hold no duplicate keys; an active canvas is at depth
    /// one or more with in-range offsets.
    pub open spec fn wf(&self) -> bool {
        &&& self.context.wf()
        &&& self.templates.wf()
        &&& match self.current_canvas {
            Some(c) => c.depth >= 1 && c.wf(),
            None => true,
        }
    }

    /// The active canvas can deepen without overflowing.
    pub open spec fn depth_headroom(&self) -> bool {
        match self.current_canvas {
            Some(c) => c.depth < usize::MAX,
            None => true,
        }
    }

    /// Everything but the content, the canvas and the two flags.
    pub open spec fn same_core(self, o: EmittingState) -> bool {
        &&& self.context == o.context
        &&& self.templates == o.templates
        &&& self.fonts == o.fonts
        &&& self.main_body_font_size == o.main_body_font_size
        &&& self.fd_keys == o.fd_keys
        &&& self.next_template_path == o.next_template_path
        &&& self.next_output_path == o.next_output_path
    }

    /// Both flags.
    pub open spec fn same_flags(self, o: EmittingState) -> bool {
        &&& self.content_finished == o.content_finished
        &&& self.content_finished_warning_issued == o.content_finished_warning_issued
    }
}

/// The one-time warning for content after sealing: the first occurrence
/// warns and sets the flag, later ones change nothing.
pub open spec fn warn_once_rel(pre: EmittingState, post: EmittingState, w: Option<
    Warning,
>) -> bool {
    if pre.content_finished_warning_issued {
        post == pre && w is None
    } else {
        &&& w matches Some(Warning::PostFinishContent(_))
        &&& post.content_finished_warning_issued
        &&& post.content_finished == pre.content_finished
        &&& post.same_core(pre)
        &&& post.current_content == pre.current_content
        &&& post.current_canvas == pre.current_canvas
    }
}

/// Behavior of one file finalization.
pub open spec fn finish_file_rel(
    pre: EmittingState,
    post: EmittingState,
    r: Result<FileRenderJob, EngineError>,
) -> bool {
    match r {
        Ok(job) => {
            &&& path_ok(pre.next_output_path@)
            &&& job.template_path@ == pre.next_template_path@
            &&& job.output_segments.deep_view() == clean_segments(pre.next_output_path@)
            &&& post.context.spec_get(spec_key_content()) matches Some(v) && v@
                == pre.current_content@
            &&& post.context.spec_get(spec_key_rel_top()) matches Some(v) && v@
                == dotdot_slash_reps(rel_top_reps(levels_of(pre.next_output_path@)))
            &&& forall|k: Seq<u8>|
                k != spec_key_content() && k != spec_key_rel_top() ==> post.context.spec_get(k)
                    == pre.context.spec_get(k)
            &&& post.current_content@ == Seq::<u8>::empty()
            &&& post.current_canvas == pre.current_canvas
            &&& post.templates == pre.templates
            &&& post.fonts == pre.fonts
            &&& post.main_body_font_size == pre.main_body_font_size
            &&& post.fd_keys == pre.fd_keys
            &&& post.next_template_path == pre.next_template_path
            &&& post.next_output_path == pre.next_output_path
            &&& post.same_flags(pre)
        },
        Err(e) => {
            &&& post == pre
            &&& !path_ok(pre.next_output_path@)
            &&& match e {
                EngineError::PathDotDot(p) => p@ == pre.next_output_path@,
                EngineError::PathRooted(p) => p@ == pre.next_output_path@,
                _ => false,
            }
        },
    }
}

/// Behavior of one emitting-phase special.
pub open spec fn emit_special_rel(
    pre: EmittingState,
    post: EmittingState,
    x: i32,
    y: i32,
    c: Seq<u8>,
    r: Result<(Option<EmitRequest>, Option<Warning>), EngineError>,
) -> bool {
    let cmd = classify_emit_special(c);
    if pre.content_finished && sealed_gates(cmd) {
        r matches Ok(pair) && pair.0 is None && warn_once_rel(pre, post, pair.1)
    } else {
        match cmd {
            EmitCmd::AutoStart(e) => {
                &&& r matches Ok(pair) && pair == (None::<EmitRequest>, None::<Warning>)
                &&& post.current_content@ == pre.current_content@ + spec_open_tag(e)
                &&& post.current_canvas == pre.current_canvas
                &&& post.same_core(pre)
                &&& post.same_flags(pre)
            },
            EmitCmd::AutoEnd(e) => {
                &&& r matches Ok(pair) && pair == (None::<EmitRequest>, None::<Warning>)
                &&& post.current_content@ == pre.current_content@ + spec_close_tag(e)
                &&& post.current_canvas == pre.current_canvas
                &&& post.same_core(pre)
                &&& post.same_flags(pre)
            },
            EmitCmd::CanvasStart(kind) => {
                &&& r matches Ok(pair) && pair == (None::<EmitRequest>, None::<Warning>)
                &&& match pre.current_canvas {
                    Some(c0) => post.current_canvas matches Some(c1) && c1.depth == c0.depth + 1
                        && c1.kind == c0.kind && c1.x0 == c0.x0 && c1.y0 == c0.y0 && c1.glyphs
                        == c0.glyphs,
                    None => post.current_canvas matches Some(c1) && c1.depth == 1 && c1.kind@
                        == kind && c1.x0 == x && c1.y0 == y && c1.glyphs@ == Seq::<
                        crate::canvas::GlyphInfo,
                    >::empty(),
                }
                &&& post.current_content == pre.current_content
                &&& post.same_core(pre)
                &&& post.same_flags(pre)
            },
            EmitCmd::CanvasEnd(_) => match pre.current_canvas {
                None => {
                    &&& r matches Ok(pair)
                    &&& pair.0 is None
                    &&& pair.1 matches Some(Warning::UnpairedCanvasEnd(_))
                    &&& post == pre
                },
                Some(c0) => if c0.depth > 1 {
                    &&& r matches Ok(pair) && pair == (None::<EmitRequest>, None::<Warning>)
                    &&& post.current_canvas matches Some(c1) && c1.depth == c0.depth - 1 && c1.kind
                        == c0.kind && c1.x0 == c0.x0 && c1.y0 == c0.y0 && c1.glyphs == c0.glyphs
                    &&& post.current_content == pre.current_content
                    &&& post.same_core(pre)
                    &&& post.same_flags(pre)
                } else {
                    &&& r matches Ok(pair)
                    &&& pair.1 is None
                    &&& pair.0 matches Some(EmitRequest::LayoutCanvas(cv)) && cv.depth == 0
                        && cv.kind == c0.kind && cv.x0 == c0.x0 && cv.y0 == c0.y0 && cv.glyphs
                        == c0.glyphs
                    &&& post.current_canvas is None
                    &&& post.current_content@ == spec_space_join(pre.current_content@)
                    &&& post.same_core(pre)
                    &&& post.same_flags(pre)
                },
            },
            EmitCmd::Emit => match r {
                Ok(pair) => pair.1 is None && (match pair.0 {
                    Some(EmitRequest::RenderFile(job)) => finish_file_rel(pre, post, Ok(job)),
                    _ => false,
                }),
                Err(e) => finish_file_rel(pre, post, Err(e)),
            },
            EmitCmd::SetTemplate(p) => {
                &&& r matches Ok(pair) && pair == (None::<EmitRequest>, None::<Warning>)
                &&& post.next_template_path@ == p
                &&& post.next_output_path == pre.next_output_path
                &&& post.context == pre.context
                &&& post.templates == pre.templates
                &&& post.fonts == pre.fonts
                &&& post.main_body_font_size == pre.main_body_font_size
                &&& post.fd_keys == pre.fd_keys
                &&& post.current_content == pre.current_content
                &&& post.current_canvas == pre.current_canvas
                &&& post.same_flags(pre)
            },
            EmitCmd::SetOutputPath(p) => {
                &&& r matches Ok(pair) && pair == (None::<EmitRequest>, None::<Warning>)
                &&& post.next_output_path@ == p
                &&& post.next_template_path == pre.next_template_path
                &&& post.context == pre.context
                &&& post.templates == pre.templates
                &&& post.fonts == pre.fonts
                &&& post.main_body_font_size == pre.main_body_font_size
                &&& post.fd_keys == pre.fd_keys
                &&& post.current_content == pre.current_content
                &&& post.current_canvas == pre.current_canvas
                &&& post.same_flags(pre)
            },
            EmitCmd::SetVariable(rest) => match spec_split_first(rest, 32) {
                Some(parts) => {
                    &&& r matches Ok(pair)
                    &&& pair.0 is None
                    &&& pair.1 is None
                    &&& post.context.spec_get(parts.0) matches Some(v) && v@ == parts.1
                    &&& forall|k: Seq<u8>|
                        k != parts.0 ==> post.context.spec_get(k) == pre.context.spec_get(k)
                    &&& post.templates == pre.templates
                    &&& post.fonts == pre.fonts
                    &&& post.main_body_font_size == pre.main_body_font_size
                    &&& post.fd_keys == pre.fd_keys
                    &&& post.next_template_path == pre.next_template_path
                    &&& post.next_output_path == pre.next_output_path
                    &&& post.current_content == pre.current_content
                    &&& post.current_canvas == pre.current_canvas
                    &&& post.same_flags(pre)
                },
                None => {
                    &&& r matches Ok(pair)
                    &&& pair.0 is None
                    &&& pair.1 matches Some(Warning::MalformedSpecial(_))
                    &&& post == pre
                },
            },
            EmitCmd::ProvideFile(rest) => match spec_split_first(rest, 32) {
                None => {
                    &&& r matches Ok(pair)
                    &&& pair.0 is None
                    &&& pair.1 matches Some(Warning::MalformedSpecial(_))
                    &&& post == pre
                },
                Some(parts) => if path_ok(parts.1) {
                    &&& r matches Ok(pair)
                    &&& pair.1 is None
                    &&& pair.0 matches Some(EmitRequest::ProvideFile { src, dest_segments })
                        && src@ == parts.0 && dest_segments.deep_view() == clean_segments(parts.1)
                    &&& post == pre
                } else {
                    &&& post == pre
                    &&& r matches Err(e) && (match e {
                        EngineError::PathDotDot(p) => p@ == parts.1,
                        EngineError::PathRooted(p) => p@ == parts.1,
                        _ => false,
                    })
                },
            },
            EmitCmd::ContentFinished => {
                &&& r matches Ok(pair)
                &&& pair.0 matches Some(EmitRequest::EmitFonts { count }) && count
                    == pre.fd_keys.keys().len()
                &&& if pre.current_content@.len() > 0 {
                    pair.1 == Some(Warning::UnemittedContent) && post.current_content@ == Seq::<
                        u8,
                    >::empty()
                } else {
                    pair.1 is None && post.current_content == pre.current_content
                }
                &&& post.content_finished
                &&& post.content_finished_warning_issued
                    == pre.content_finished_warning_issued
                &&& post.current_canvas == pre.current_canvas
                &&& post.same_core(pre)
            },
            EmitCmd::Other => {
                &&& r matches Ok(pair) && pair == (None::<EmitRequest>, None::<Warning>)
                &&& post == pre
            },
        }
    }
}

impl EmittingState {
    /// Issues the one-time warning for a content event after sealing.
    pub fn warn_finished_content(&mut self, detail: Vec<u8>) -> (r: Option<Warning>)
        ensures
            warn_once_rel(*old(self), *final(self), r),
    {
        if !self.content_finished_warning_issued {
            self.content_finished_warning_issued = true;
            Some(Warning::PostFinishContent(detail))
        } else {
            None
        }
    }

    /// Finalizes the current file: sanitizes the pending output path,
    /// injects the accumulated content and the relative-root prefix into
    /// the context, and resets only the content buffer. The caller loads
    /// the pending template fresh, renders it with the context, and
    /// writes the result under the returned segments.
    pub fn finish_file(&mut self) -> (r: Result<FileRenderJob, EngineError>)
        requires
            old(self).wf(),
        ensures
            final(self).wf(),
            finish_file_rel(*old(self), *final(self), r),
    {
        let segments = match sanitize_path(self.next_output_path.as_slice()) {
            Ok(segs) => segs,
            Err(e) => {
                return Err(e);
            },
        };
        let levels = segments.len();
        let content_key = crate::protocol::key_content();
        let rel_top_key = crate::protocol::key_rel_top();
        proof {
            assert(content_key@ != rel_top_key@) by {
                assert(spec_key_content().len() == 11);
                assert(spec_key_rel_top().len() == 10);
            }
        }
        let mut content: Vec<u8> = Vec::new();
        core::mem::swap(&mut self.current_content, &mut content);
        self.context.insert(content_key, content);
        let prefix = crate::paths::rel_top_prefix(levels);
        self.context.insert(rel_top_key, prefix);
        let template_path = vstd::slice::slice_to_vec(self.next_template_path.as_slice());
        proof {
            assert(self.current_content@ =~= Seq::<u8>::empty());
        }
        Ok(FileRenderJob { template_path, output_segments: segments })
    }

    /// Handles an emitting-phase special, returning the request the
    /// caller must perform, if any.
    pub fn handle_special(&mut self, x: i32, y: i32, contents: &[u8]) -> (r: Result<
        (Option<EmitRequest>, Option<Warning>),
        EngineError,
    >)
        requires
            old(self).wf(),
            old(self).depth_headroom(),
        ensures
            final(self).wf(),
            emit_special_rel(*old(self), *final(self), x, y, contents@, r),
    {
        let pfx = crate::protocol::pfx_auto_start();
        if let Some(element) = crate::bytes::strip_prefix(contents, pfx.as_slice()) {
            if self.content_finished {
                let w = self.warn_finished_content(element);
                return Ok((None, w));
            }
            crate::html::append_open_tag(&mut self.current_content, element.as_slice());
            return Ok((None, None));
        }
        let pfx = crate::protocol::pfx_auto_end();
        if let Some(element) = crate::bytes::strip_prefix(contents, pfx.as_slice()) {
            if self.content_finished {
                let w = self.warn_finished_content(element);
                return Ok((None, w));
            }
            crate::html::append_close_tag(&mut self.current_content, element.as_slice());
            return Ok((None, None));
        }
        let pfx = crate::protocol::pfx_canvas_start();
        if let Some(kind) = crate::bytes::strip_prefix(contents, pfx.as_slice()) {
            if self.content_finished {
                let w = self.warn_finished_content(kind);
                return Ok((None, w));
            }
            let mut canvas = self.current_canvas.take();
            match &mut canvas {
                Some(c) => {
                    c.depth = c.depth + 1;
                },
                None => {
                    canvas = Some(CanvasState::new(kind, x, y));
                },
            }
            self.current_canvas = canvas;
            return Ok((None, None));
        }
        let pfx = crate::protocol::pfx_canvas_end();
        if let Some(kind) = crate::bytes::strip_prefix(contents, pfx.as_slice()) {
            if self.content_finished {
                let w = self.warn_finished_content(kind);
                return Ok((None, w));
            }
            let canvas = self.current_canvas.take();
            match canvas {
                Some(mut c) => {
                    c.depth = c.depth - 1;
                    if c.depth == 0 {
                        let ghost pre_content = self.current_content@;
                        if self.current_content.len() > 0 {
                            let last = self.current_content[self.current_content.len() - 1];
                            if last != 62 {
                                self.current_content.push(32);
                            }
                        }
                        proof {
                            assert(self.current_content@ =~= spec_space_join(pre_content));
                        }
                        return Ok((Some(EmitRequest::LayoutCanvas(c)), None));
                    }
                    self.current_canvas = Some(c);
                    return Ok((None, None));
                },
                None => {
                    return Ok(
                        (
                            None,
                            Some(
                                Warning::UnpairedCanvasEnd(vstd::slice::slice_to_vec(contents)),
                            ),
                        ),
                    );
                },
            }
        }
        let cmd = crate::protocol::cmd_emit();
        if crate::bytes::slices_eq(contents, cmd.as_slice()) {
            match self.finish_file() {
                Ok(job) => {
                    return Ok((Some(EmitRequest::RenderFile(job)), None));
                },
                Err(e) => {
                    return Err(e);
                },
            }
        }
        let pfx = crate::protocol::pfx_set_template();
        if let Some(path) = crate::bytes::strip_prefix(contents, pfx.as_slice()) {
            if self.content_finished {
                let w = self.warn_finished_content(path);
                return Ok((None, w));
            }
            self.next_template_path = path;
            return Ok((None, None));
        }
        let pfx = crate::protocol::pfx_set_output_path();
        if let Some(path) = crate::bytes::strip_prefix(contents, pfx.as_slice()) {
            if self.content_finished {
                let w = self.warn_finished_content(path);
                return Ok((None, w));
            }
            self.next_output_path = path;
            return Ok((None, None));
        }
        let pfx = crate::protocol::pfx_set_variable();
        if let Some(rest) = crate::bytes::strip_prefix(contents, pfx.as_slice()) {
            if self.content_finished {
                let w = self.warn_finished_content(rest);
                return Ok((None, w));
            }
            match crate::bytes::split_once(rest.as_slice(), 32) {
                Some(parts) => {
                    self.context.insert(parts.0, parts.1);
                    return Ok((None, None));
                },
                None => {
                    return Ok((None, Some(Warning::MalformedSpecial(rest))));
                },
            }
        }
        let pfx = crate::protocol::pfx_provide_file();
        if let Some(rest) = crate::bytes::strip_prefix(contents, pfx.as_slice()) {
            if self.content_finished {
                let w = self.warn_finished_content(rest);
                return Ok((None, w));
            }
            match crate::bytes::split_once(rest.as_slice(), 32) {
                Some(parts) => {
                    let (src, dest) = parts;
                    match sanitize_path(dest.as_slice()) {
                        Ok(segs) => {
                            return Ok(
                                (Some(EmitRequest::ProvideFile { src, dest_segments: segs }), None),
                            );
                        },
                        Err(e) => {
                            return Err(e);
                        },
                    }
                },
                None => {
                    return Ok((None, Some(Warning::MalformedSpecial(rest))));
                },
            }
        }
        let cmd = crate::protocol::cmd_content_finished();
        if crate::bytes::slices_eq(contents, cmd.as_slice()) {
            let mut w: Option<Warning> = None;
            if self.current_content.len() > 0 {
                w = Some(Warning::UnemittedContent);
                self.current_content = Vec::new();
                proof {
                    assert(self.current_content@ =~= Seq::<u8>::empty());
                }
            }
            self.content_finished = true;
            let count = self.fd_keys.len();
            return Ok((Some(EmitRequest::EmitFonts { count }), w));
        }
        Ok((None, None))
    }

    /// Appends the rendered wrapper of a finished canvas to the content.
    pub fn finish_canvas(&mut self, wrapper: &[u8])
        requires
            old(self).wf(),
        ensures
            final(self).wf(),
            final(self).current_content@ == old(self).current_content@ + wrapper@,
            final(self).current_canvas == old(self).current_canvas,
            final(self).same_core(*old(self)),
            final(self).same_flags(*old(self)),
    {
        self.current_content.extend_from_slice(wrapper);
    }

    /// Buffers glyphs into the active canvas, or joins the text to the
    /// content buffer when none is active; after sealing, the one-time
    /// warning instead.
    pub fn handle_text_and_glyphs(
        &mut self,
        font_num: i32,
        text: &[u8],
        glyphs: &[u16],
        xs: &[i32],
        ys: &[i32],
    ) -> (r: Option<Warning>)
        requires
            old(self).wf(),
            glyphs@.len() == xs@.len(),
            glyphs@.len() == ys@.len(),
        ensures
            final(self).wf(),
            text_glyphs_rel(
                *old(self),
                *final(self),
                font_num,
                text@,
                glyphs@,
                xs@,
                ys@,
                true,
                r,
            ),
    {
        if self.content_finished {
            return self.warn_finished_content(vstd::slice::slice_to_vec(text));
        }
        let mut canvas = self.current_canvas.take();
        match &mut canvas {
            Some(c) => {
                c.buffer_glyphs(font_num, glyphs, xs, ys);
                self.current_canvas = canvas;
                None
            },
            None => {
                self.current_canvas = canvas;
                crate::html::append_text(&mut self.current_content, text);
                None
            },
        }
    }

    /// Buffers a bare glyph run into the active canvas; outside a canvas
    /// it is dropped with a warning.
    pub fn handle_glyph_run(&mut self, font_num: i32, glyphs: &[u16], xs: &[i32], ys: &[i32]) -> (r:
        Option<Warning>)
        requires
            old(self).wf(),
            glyphs@.len() == xs@.len(),
            glyphs@.len() == ys@.len(),
        ensures
            final(self).wf(),
            text_glyphs_rel(
                *old(self),
                *final(self),
                font_num,
                Seq::<u8>::empty(),
                glyphs@,
                xs@,
                ys@,
                false,
                r,
            ),
    {
        if self.content_finished {
            return self.warn_finished_content(Vec::new());
        }
        let mut canvas = self.current_canvas.take();
        match &mut canvas {
            Some(c) => {
                c.buffer_glyphs(font_num, glyphs, xs, ys);
                self.current_canvas = canvas;
                None
            },
            None => {
                self.current_canvas = canvas;
                Some(Warning::GlyphRunOutsideCanvas)
            },
        }
    }

    /// Index of the last font declared for the main body, if any.
    pub open spec fn last_main_body(entries: Seq<(i32, FontInfo)>) -> Option<int>
        decreases entries.len(),
    {
        if entries.len() == 0 {
            None
        } else if entries.last().1.role is MainBody {
            Some(entries.len() - 1)
        } else {
            Self::last_main_body(entries.drop_last())
        }
    }

    /// Completes the sealing after the caller emitted the custom fonts:
    /// the accumulated font CSS and the main body font family go into
    /// the context.
    pub fn apply_content_finished(&mut self, faces_css: Vec<u8>)
        requires
            old(self).wf(),
        ensures
            final(self).wf(),
            final(self).context.spec_get(crate::protocol::spec_key_font_faces()) matches Some(v)
                && v@ == faces_css@,
            match Self::last_main_body(old(self).fonts.entries()) {
                Some(i) => final(self).context.spec_get(
                    crate::protocol::spec_key_main_body_family(),
                ) matches Some(v) && v@ == crate::fonts::family_name(
                    old(self).fonts.entries()[i].1.fd_key as nat,
                ),
                None => forall|k: Seq<u8>|
                    k != crate::protocol::spec_key_font_faces() ==> final(self).context.spec_get(k)
                        == old(self).context.spec_get(k),
            },
            forall|k: Seq<u8>|
                (k != crate::protocol::spec_key_font_faces() && k
                    != crate::protocol::spec_key_main_body_family())
                    ==> final(self).context.spec_get(k) == old(self).context.spec_get(k),
            final(self).templates == old(self).templates,
            final(self).fonts == old(self).fonts,
            final(self).main_body_font_size == old(self).main_body_font_size,
            final(self).fd_keys == old(self).fd_keys,
            final(self).next_template_path == old(self).next_template_path,
            final(self).next_output_path == old(self).next_output_path,
            final(self).current_content == old(self).current_content,
            final(self).current_canvas == old(self).current_canvas,
            final(self).same_flags(*old(self)),
    {
        let faces_key = crate::protocol::key_font_faces();
        let family_key = crate::protocol::key_main_body_family();
        proof {
            assert(faces_key@ != family_key@) by {
                assert(crate::protocol::spec_key_font_faces().len() == 13);
                assert(crate::protocol::spec_key_main_body_family().len() == 22);
            }
        }
        let mut main_fd: Option<usize> = None;
        let n = self.fonts.len();
        let mut i: usize = 0;
        while i < n
            invariant
                n == self.fonts.entries().len(),
                i <= n,
                match Self::last_main_body(self.fonts.entries().take(i as int)) {
                    Some(j) => main_fd matches Some(fd) && fd == self.fonts.entries()[j].1.fd_key,
                    None => main_fd is None,
                },
            decreases n - i,
        {
            let (_, info) = self.fonts.entry_at(i);
            match info.role {
                FontRole::MainBody => {
                    main_fd = Some(info.fd_key);
                },
            }
            proof {
                assert(self.fonts.entries().take(i + 1 as int).drop_last() =~= self.fonts.entries()
                    .take(i as int));
                assert(self.fonts.entries().take(i + 1 as int).last() == self.fonts.entries()[
                    i as int
                ]);
            }
            i += 1;
        }
        proof {
            assert(self.fonts.entries().take(n as int) =~= self.fonts.entries());
        }
        match main_fd {
            Some(fd) => {
                let family = crate::fonts::font_family(fd);
                self.context.insert(family_key, family);
            },
            None => {},
        }
        self.context.insert(faces_key, faces_css);
    }
}

/// Behavior of a text-and-glyphs event (`has_text` true) or a bare glyph
/// run (`has_text` false).
pub open spec fn text_glyphs_rel(
    pre: EmittingState,
    post: EmittingState,
    font_num: i32,
    text: Seq<u8>,
    glyphs: Seq<u16>,
    xs: Seq<i32>,
    ys: Seq<i32>,
    has_text: bool,
    w: Option<Warning>,
) -> bool {
    if pre.content_finished {
        warn_once_rel(pre, post, w)
    } else {
        match pre.current_canvas {
            Some(c0) => {
                &&& w is None
                &&& post.current_canvas matches Some(c1) && {
                    &&& c1.kind == c0.kind
                    &&& c1.depth == c0.depth
                    &&& c1.x0 == c0.x0
                    &&& c1.y0 == c0.y0
                    &&& c1.glyphs@.len() == c0.glyphs@.len() + glyphs.len()
                    &&& forall|i: int|
                        0 <= i < c0.glyphs@.len() ==> c1.glyphs@[i] == c0.glyphs@[i]
                    &&& forall|i: int|
                        0 <= i < glyphs.len() ==> {
                            let g = #[trigger] c1.glyphs@[c0.glyphs@.len() + i];
                            &&& g.dx == xs[i] - c0.x0
                            &&& g.dy == ys[i] - c0.y0
                            &&& g.font_num == font_num
                            &&& g.glyph == glyphs[i]
                        }
                }
                &&& post.current_content == pre.current_content
                &&& post.same_core(pre)
                &&& post.same_flags(pre)
            },
            None => {
                &&& (if has_text {
                    w is None && post.current_content@ == spec_text_append(
                        pre.current_content@,
                        text,
                    )
                } else {
                    w == Some(Warning::GlyphRunOutsideCanvas) && post.current_content
                        == pre.current_content
                })
                &&& post.current_canvas is None
                &&& post.same_core(pre)
                &&& post.same_flags(pre)
            },
        }
    }
}

/// Re-defining an already-registered font id is a no-op: once a
/// declaration for `font_num` went through, any further declaration for
/// it returns nothing and leaves the whole state — the `FontInfo` for
/// that id included — exactly as it was.
pub proof fn lemma_font_redefinition_is_noop(
    s0: InitializationState,
    s1: InitializationState,
    s2: InitializationState,
    font_num: i32,
    name1: Vec<u8>,
    tex1: Seq<u8>,
    size1: i32,
    face1: u32,
    o1: Option<FontDefOutcome>,
    name2: Vec<u8>,
    tex2: Seq<u8>,
    size2: i32,
    face2: u32,
    o2: Option<FontDefOutcome>,
)
    requires
        !s0.fonts.contains(font_num),
        define_font_rel(s0, s1, font_num, name1, tex1, size1, face1, None, None, None, None, o1),
        define_font_rel(s1, s2, font_num, name2, tex2, size2, face2, None, None, None, None, o2),
    ensures
        o2 is None,
        s2 == s1,
        s1.fonts.spec_get(font_num) == s2.fonts.spec_get(font_num),
{
}

/// Two font declarations resolving to the same (file, face) pair share
/// one `fd_key`, and the second never asks for the font data to be
/// loaded again: the file is read into the table exactly once.
pub proof fn lemma_font_data_loaded_once(
    s0: InitializationState,
    s1: InitializationState,
    s2: InitializationState,
    n1: i32,
    n2: i32,
    name1: Vec<u8>,
    name2: Vec<u8>,
    tex1: Seq<u8>,
    tex2: Seq<u8>,
    size1: i32,
    size2: i32,
    face: u32,
    o1: FontDefOutcome,
    o2: FontDefOutcome,
)
    requires
        !s0.fonts.contains(n1),
        !s1.fonts.contains(n2),
        name1@ == name2@,
        define_font_rel(
            s0,
            s1,
            n1,
            name1,
            tex1,
            size1,
            face,
            None,
            None,
            None,
            None,
            Some(o1),
        ),
        define_font_rel(
            s1,
            s2,
            n2,
            name2,
            tex2,
            size2,
            face,
            None,
            None,
            None,
            None,
            Some(o2),
        ),
    ensures
        o2.fd_key == o1.fd_key,
        !o2.load_data,
{
    let keys0 = s0.font_data_keys.keys();
    crate::fonts::lemma_fd_key_dedup(keys0, name1@, face);
    if crate::fonts::pair_index(keys0, name1@, face) == -1 {
        assert(s1.font_data_keys.keys() == keys0.push((name1@, face)));
        assert(crate::fonts::pair_index(s1.font_data_keys.keys(), name2@, face) == keys0.len());
    } else {
        assert(s1.font_data_keys.keys() == keys0);
    }
}

/// After the content is sealed, a whole run of content events produces
/// exactly one warning: the first issues it and sets the flag, and any
/// later one, seeing the flag, issues nothing and changes nothing.
pub proof fn lemma_one_warning_after_sealing(
    s0: EmittingState,
    s1: EmittingState,
    s2: EmittingState,
    s3: EmittingState,
    w1: Option<Warning>,
    w2: Option<Warning>,
    w3: Option<Warning>,
)
    requires
        !s0.content_finished_warning_issued,
        warn_once_rel(s0, s1, w1),
        warn_once_rel(s1, s2, w2),
        warn_once_rel(s2, s3, w3),
    ensures
        w1 matches Some(Warning::PostFinishContent(_)),
        w2 is None,
        w3 is None,
        s3 == s1,
        s3.current_content == s0.current_content,
{
}

/// Canvas depth is monotonic per region: while a canvas is active, a
/// canvas-start special only deepens it by one and asks for nothing, and
/// a canvas-end special runs the layout exactly when it brings the depth
/// to zero — at the N-th close after N opens, never earlier.
pub proof fn lemma_canvas_flush_once(
    pre: EmittingState,
    post: EmittingState,
    x: i32,
    y: i32,
    c: Seq<u8>,
    r: Result<(Option<EmitRequest>, Option<Warning>), EngineError>,
)
    requires
        emit_special_rel(pre, post, x, y, c, r),
        !pre.content_finished,
        pre.current_canvas matches Some(c0) && c0.depth >= 1,
    ensures
        classify_emit_special(c) matches EmitCmd::CanvasStart(_) ==> (match r {
            Ok(pair) => pair.0 is None,
            Err(_) => false,
        }) && (match (pre.current_canvas, post.current_canvas) {
            (Some(c0), Some(c1)) => c1.depth == c0.depth + 1,
            _ => false,
        }),
        (classify_emit_special(c) matches EmitCmd::CanvasEnd(_) && (pre.current_canvas matches
        Some(c0) && c0.depth > 1)) ==> (match r {
            Ok(pair) => pair.0 is None,
            Err(_) => false,
        }) && (match (pre.current_canvas, post.current_canvas) {
            (Some(c0), Some(c1)) => c1.depth == c0.depth - 1,
            _ => false,
        }),
        (classify_emit_special(c) matches EmitCmd::CanvasEnd(_) && (pre.current_canvas matches
        Some(c0) && c0.depth == 1)) ==> (match r {
            Ok(pair) => pair.0 matches Some(EmitRequest::LayoutCanvas(cv)) && cv.depth == 0,
            Err(_) => false,
        }) && post.current_canvas is None,
{
}

/// The machine: the initializing phase, the emitting phase, and the
/// transient placeholder that exists only inside the atomic swap and is
/// never at rest.
pub enum State {
    /// The placeholder; observing it is an invariant violation.
    Invalid,
    /// Collecting templates, variables and fonts.
    Initializing(InitializationState),
    /// Accumulating content.
    Emitting(EmittingState),
}

impl State {
    /// At rest the machine is initializing or emitting, well-formed.
    pub open spec fn wf(&self) -> bool {
        match self {
            State::Invalid => false,
            State::Initializing(s) => s.wf(),
            State::Emitting(e) => e.wf(),
        }
    }
}

/// The specials that demand rendering context and so force the
/// initializing phase to finish.
pub open spec fn triggers_initialization(c: Seq<u8>) -> bool {
    c == spec_cmd_emit() || starts_with(c, spec_pfx_provide_file_bare())
}

/// The per-run engine state driven by the stream decoder.
pub struct EngineState {
    /// The current phase.
    pub state: State,
}

impl EngineState {
    /// The machine is at rest in a well-formed phase.
    pub open spec fn wf(&self) -> bool {
        self.state.wf()
    }

    /// The active canvas, if any, can deepen without overflow.
    pub open spec fn depth_headroom(&self) -> bool {
        match self.state {
            State::Emitting(e) => e.depth_headroom(),
            _ => true,
        }
    }

    /// A fresh machine in the initializing phase.
    pub fn new() -> (r: Self)
        ensures
            r.wf(),
            r.state matches State::Initializing(s) && s.templates.entries().len() == 0
                && s.fonts.entries().len() == 0 && s.font_data_keys.keys().len() == 0
                && s.variables.entries().len() == 0 && s.next_output_path@
                == crate::protocol::spec_default_output_path() && s.main_body_font_size == 0,
    {
        EngineState { state: State::Initializing(Default::default()) }
    }

    /// Whether the machine has entered the emitting phase.
    pub fn is_emitting(&self) -> (r: bool)
        ensures
            r == (self.state matches State::Emitting(_)),
    {
        match &self.state {
            State::Emitting(_) => true,
            _ => false,
        }
    }

    /// Checks the stream type announced by the header; anything but the
    /// expected one is fatal.
    pub fn handle_header(&self, filetype: StreamType) -> (r: Result<(), EngineError>)
        ensures
            r is Ok <==> filetype is Spx,
            r matches Err(e) ==> e is BadStreamType,
    {
        match filetype {
            StreamType::Spx => Ok(()),
            StreamType::Other => Err(EngineError::BadStreamType),
        }
    }

    /// Converts the initializing phase into the emitting phase, once;
    /// idempotent thereafter. The placeholder exists only inside the
    /// swap.
    fn ensure_initialized(&mut self)
        requires
            old(self).wf(),
        ensures
            final(self).wf(),
            match old(self).state {
                State::Initializing(s) => final(self).state matches State::Emitting(e)
                    && init_finished_rel(s, e),
                _ => final(self).state == old(self).state,
            },
    {
        let mut work = State::Invalid;
        core::mem::swap(&mut self.state, &mut work);
        work = match work {
            State::Initializing(s) => State::Emitting(s.initialization_finished()),
            other => other,
        };
        core::mem::swap(&mut self.state, &mut work);
    }

    /// Routes one special: a rendering-context special first finishes
    /// initialization, then the phase's handler runs.
    pub fn handle_special(&mut self, x: i32, y: i32, contents: &[u8]) -> (r: Result<
        (Option<EmitRequest>, Option<Warning>),
        EngineError,
    >)
        requires
            old(self).wf(),
            old(self).depth_headroom(),
        ensures
            final(self).wf(),
            match old(self).state {
                State::Initializing(s0) => if triggers_initialization(contents@) {
                    exists|mid: EmittingState|
                        #![auto]
                        init_finished_rel(s0, mid) && (match final(self).state {
                            State::Emitting(e1) => emit_special_rel(mid, e1, x, y, contents@, r),
                            _ => false,
                        })
                } else {
                    final(self).state matches State::Initializing(s1) && match r {
                        Ok(pair) => match pair.0 {
                            Some(EmitRequest::ReadTemplate(p)) => init_special_rel(
                                s0,
                                s1,
                                contents@,
                                Some(p),
                                pair.1,
                            ),
                            Some(_) => false,
                            None => init_special_rel(s0, s1, contents@, None, pair.1),
                        },
                        Err(_) => false,
                    }
                },
                State::Emitting(e0) => final(self).state matches State::Emitting(e1)
                    && emit_special_rel(e0, e1, x, y, contents@, r),
                State::Invalid => false,
            },
    {
        let cmd = crate::protocol::cmd_emit();
        let pfx = crate::protocol::pfx_provide_file_bare();
        if crate::bytes::slices_eq(contents, cmd.as_slice()) || crate::bytes::slice_starts_with(
            contents,
            pfx.as_slice(),
        ) {
            self.ensure_initialized();
        }
        match &mut self.state {
            State::Invalid => vstd::pervasive::unreached(),
            State::Initializing(s) => {
                let (req, w) = s.handle_special(contents);
                match req {
                    Some(path) => Ok((Some(EmitRequest::ReadTemplate(path)), w)),
                    None => Ok((None, w)),
                }
            },
            State::Emitting(e) => {
                let ghost mid = *e;
                let r = e.handle_special(x, y, contents);
                proof {
                    match old(self).state {
                        State::Initializing(s0) => {
                            assert(init_finished_rel(s0, mid));
                        },
                        _ => {},
                    }
                }
                r
            },
        }
    }

    /// Routes a text-and-glyphs event, finishing initialization first.
    pub fn handle_text_and_glyphs(
        &mut self,
        font_num: i32,
        text: &[u8],
        glyphs: &[u16],
        xs: &[i32],
        ys: &[i32],
    ) -> (r: Option<Warning>)
        requires
            old(self).wf(),
            glyphs@.len() == xs@.len(),
            glyphs@.len() == ys@.len(),
        ensures
            final(self).wf(),
            final(self).state matches State::Emitting(e1) && match old(self).state {
                State::Initializing(s0) => exists|mid: EmittingState|
                    init_finished_rel(s0, mid) && text_glyphs_rel(
                        mid,
                        e1,
                        font_num,
                        text@,
                        glyphs@,
                        xs@,
                        ys@,
                        true,
                        r,
                    ),
                State::Emitting(e0) => text_glyphs_rel(
                    e0,
                    e1,
                    font_num,
                    text@,
                    glyphs@,
                    xs@,
                    ys@,
                    true,
                    r,
                ),
                State::Invalid => false,
            },
    {
        self.ensure_initialized();
        match &mut self.state {
            State::Invalid => vstd::pervasive::unreached(),
            State::Initializing(_) => vstd::pervasive::unreached(),
            State::Emitting(e) => {
                let ghost mid = *e;
                let r = e.handle_text_and_glyphs(font_num, text, glyphs, xs, ys);
                proof {
                    match old(self).state {
                        State::Initializing(s0) => {
                            assert(init_finished_rel(s0, mid));
                        },
                        _ => {},
                    }
                }
                r
            },
        }
    }

    /// Routes a bare glyph run, finishing initialization first.
    pub fn handle_glyph_run(&mut self, font_num: i32, glyphs: &[u16], xs: &[i32], ys: &[i32]) -> (r:
        Option<Warning>)
        requires
            old(self).wf(),
            glyphs@.len() == xs@.len(),
            glyphs@.len() == ys@.len(),
        ensures
            final(self).wf(),
            final(self).state matches State::Emitting(e1) && match old(self).state {
                State::Initializing(s0) => exists|mid: EmittingState|
                    init_finished_rel(s0, mid) && text_glyphs_rel(
                        mid,
                        e1,
                        font_num,
                        Seq::<u8>::empty(),
                        glyphs@,
                        xs@,
                        ys@,
                        false,
                        r,
                    ),
                State::Emitting(e0) => text_glyphs_rel(
                    e0,
                    e1,
                    font_num,
                    Seq::<u8>::empty(),
                    glyphs@,
                    xs@,
                    ys@,
                    false,
                    r,
                ),
                State::Invalid => false,
            },
    {
        self.ensure_initialized();
        match &mut self.state {
            State::Invalid => vstd::pervasive::unreached(),
            State::Initializing(_) => vstd::pervasive::unreached(),
            State::Emitting(e) => {
                let ghost mid = *e;
                let r = e.handle_glyph_run(font_num, glyphs, xs, ys);
                proof {
                    match old(self).state {
                        State::Initializing(s0) => {
                            assert(init_finished_rel(s0, mid));
                        },
                        _ => {},
                    }
                }
                r
            },
        }
    }

    /// Whether a font declaration for `font_num` still needs the caller
    /// to resolve and read the font file: only in the initializing phase
    /// and only for an unregistered id.
    pub fn needs_font_definition(&self, font_num: i32) -> (r: bool)
        ensures
            r == (self.state matches State::Initializing(s) && !s.fonts.contains(font_num)),
    {
        match &self.state {
            State::Initializing(s) => !s.fonts.contains_id(font_num),
            _ => false,
        }
    }

    /// Registers a native font declaration in the initializing phase; in
    /// the emitting phase the declaration is ignored, as the stream only
    /// carries them before any content.
    pub fn define_native_font(
        &mut self,
        font_num: i32,
        resolved_name: Vec<u8>,
        texpath: &[u8],
        size: i32,
        face_index: u32,
        color_rgba: Option<u32>,
        extend: Option<u32>,
        slant: Option<u32>,
        embolden: Option<u32>,
    ) -> (r: Option<FontDefOutcome>)
        requires
            old(self).wf(),
        ensures
            final(self).wf(),
            match old(self).state {
                State::Initializing(s0) => final(self).state matches State::Initializing(s1)
                    && define_font_rel(
                    s0,
                    s1,
                    font_num,
                    resolved_name,
                    texpath@,
                    size,
                    face_index,
                    color_rgba,
                    extend,
                    slant,
                    embolden,
                    r,
                ),
                _ => r is None && final(self).state == old(self).state,
            },
    {
        match &mut self.state {
            State::Invalid => vstd::pervasive::unreached(),
            State::Initializing(s) => s.register_native_font(
                font_num,
                resolved_name,
                texpath,
                size,
                face_index,
                color_rgba,
                extend,
                slant,
                embolden,
            ),
            State::Emitting(_) => None,
        }
    }

    /// End of the event stream: content still in the buffer is finalized
    /// one last time with the current pending paths.
    pub fn finished(&mut self) -> (r: Result<Option<FileRenderJob>, EngineError>)
        requires
            old(self).wf(),
        ensures
            final(self).wf(),
            match old(self).state {
                State::Emitting(e0) => if e0.current_content@.len() > 0 {
                    final(self).state matches State::Emitting(e1) && match r {
                        Ok(job_opt) => job_opt matches Some(job) && finish_file_rel(
                            e0,
                            e1,
                            Ok(job),
                        ),
                        Err(e) => finish_file_rel(e0, e1, Err(e)),
                    }
                } else {
                    r == Ok::<Option<FileRenderJob>, EngineError>(None) && final(self).state == old(self).state
                },
                _ => r == Ok::<Option<FileRenderJob>, EngineError>(None) && final(self).state == old(self).state,
            },
    {
        match &mut self.state {
            State::Invalid => vstd::pervasive::unreached(),
            State::Initializing(_) => Ok(None),
            State::Emitting(e) => {
                if e.current_content.len() > 0 {
                    match e.finish_file() {
                        Ok(job) => Ok(Some(job)),
                        Err(err) => Err(err),
                    }
                } else {
                    Ok(None)
                }
            },
        }
    }
}

} // verus!
