//! The recognized special-command vocabulary and the fixed HTML fragments.
//!
//! The verbatim ASCII prefixes below are this stage's wire protocol; each
//! constant exists as a spec-level byte sequence and a matching run-time
//! vector proved equal to it.

use vstd::prelude::*;

verus! {

/// `tdux:as `: append an opening HTML tag.
pub open spec fn spec_pfx_auto_start() -> Seq<u8> {
    seq![116u8, 100, 117, 120, 58, 97, 115, 32]
}

/// Builds [`spec_pfx_auto_start`] at run time.
pub fn pfx_auto_start() -> (r: Vec<u8>)
    ensures
        r@ == spec_pfx_auto_start(),
{
    let r: Vec<u8> = vec![116u8, 100, 117, 120, 58, 97, 115, 32];
    proof {
        assert(r@ =~= spec_pfx_auto_start());
    }
    r
}

/// `tdux:ae `: append a closing HTML tag.
pub open spec fn spec_pfx_auto_end() -> Seq<u8> {
    seq![116u8, 100, 117, 120, 58, 97, 101, 32]
}

/// Builds [`spec_pfx_auto_end`] at run time.
pub fn pfx_auto_end() -> (r: Vec<u8>)
    ensures
        r@ == spec_pfx_auto_end(),
{
    let r: Vec<u8> = vec![116u8, 100, 117, 120, 58, 97, 101, 32];
    proof {
        assert(r@ =~= spec_pfx_auto_end());
    }
    r
}

/// `tdux:cs `: open (or deepen) a canvas region.
pub open spec fn spec_pfx_canvas_start() -> Seq<u8> {
    seq![116u8, 100, 117, 120, 58, 99, 115, 32]
}

/// Builds [`spec_pfx_canvas_start`] at run time.
pub fn pfx_canvas_start() -> (r: Vec<u8>)
    ensures
        r@ == spec_pfx_canvas_start(),
{
    let r: Vec<u8> = vec![116u8, 100, 117, 120, 58, 99, 115, 32];
    proof {
        assert(r@ =~= spec_pfx_canvas_start());
    }
    r
}

/// `tdux:ce `: close one level of the canvas region.
pub open spec fn spec_pfx_canvas_end() -> Seq<u8> {
    seq![116u8, 100, 117, 120, 58, 99, 101, 32]
}

/// Builds [`spec_pfx_canvas_end`] at run time.
pub fn pfx_canvas_end() -> (r: Vec<u8>)
    ensures
        r@ == spec_pfx_canvas_end(),
{
    let r: Vec<u8> = vec![116u8, 100, 117, 120, 58, 99, 101, 32];
    proof {
        assert(r@ =~= spec_pfx_canvas_end());
    }
    r
}

/// `tdux:emit`: finalize and write the current output file.
pub open spec fn spec_cmd_emit() -> Seq<u8> {
    seq![116u8, 100, 117, 120, 58, 101, 109, 105, 116]
}

/// Builds [`spec_cmd_emit`] at run time.
pub fn cmd_emit() -> (r: Vec<u8>)
    ensures
        r@ == spec_cmd_emit(),
{
    let r: Vec<u8> = vec![116u8, 100, 117, 120, 58, 101, 109, 105, 116];
    proof {
        assert(r@ =~= spec_cmd_emit());
    }
    r
}

/// `tdux:setTemplate `: template used by the next finalized file.
pub open spec fn spec_pfx_set_template() -> Seq<u8> {
    seq![116u8, 100, 117, 120, 58, 115, 101, 116, 84, 101, 109, 112, 108, 97, 116, 101, 32]
}

/// Builds [`spec_pfx_set_template`] at run time.
pub fn pfx_set_template() -> (r: Vec<u8>)
    ensures
        r@ == spec_pfx_set_template(),
{
    let r: Vec<u8> = vec![116u8, 100, 117, 120, 58, 115, 101, 116, 84, 101, 109, 112, 108, 97, 116, 101, 32];
    proof {
        assert(r@ =~= spec_pfx_set_template());
    }
    r
}

/// `tdux:setOutputPath `: output path of the next finalized file.
pub open spec fn spec_pfx_set_output_path() -> Seq<u8> {
    seq![116u8, 100, 117, 120, 58, 115, 101, 116, 79, 117, 116, 112, 117, 116, 80, 97, 116, 104, 32]
}

/// Builds [`spec_pfx_set_output_path`] at run time.
pub fn pfx_set_output_path() -> (r: Vec<u8>)
    ensures
        r@ == spec_pfx_set_output_path(),
{
    let r: Vec<u8> = vec![116u8, 100, 117, 120, 58, 115, 101, 116, 79, 117, 116, 112, 117, 116, 80, 97, 116, 104, 32];
    proof {
        assert(r@ =~= spec_pfx_set_output_path());
    }
    r
}

/// `tdux:setTemplateVariable `: set a template variable.
pub open spec fn spec_pfx_set_variable() -> Seq<u8> {
    seq![116u8, 100, 117, 120, 58, 115, 101, 116, 84, 101, 109, 112, 108, 97, 116, 101, 86, 97, 114, 105, 97, 98, 108, 101, 32]
}

/// Builds [`spec_pfx_set_variable`] at run time.
pub fn pfx_set_variable() -> (r: Vec<u8>)
    ensures
        r@ == spec_pfx_set_variable(),
{
    let r: Vec<u8> = vec![116u8, 100, 117, 120, 58, 115, 101, 116, 84, 101, 109, 112, 108, 97, 116, 101, 86, 97, 114, 105, 97, 98, 108, 101, 32];
    proof {
        assert(r@ =~= spec_pfx_set_variable());
    }
    r
}

/// `tdux:provideFile `: copy a source file into the output tree.
pub open spec fn spec_pfx_provide_file() -> Seq<u8> {
    seq![116u8, 100, 117, 120, 58, 112, 114, 111, 118, 105, 100, 101, 70, 105, 108, 101, 32]
}

/// Builds [`spec_pfx_provide_file`] at run time.
pub fn pfx_provide_file() -> (r: Vec<u8>)
    ensures
        r@ == spec_pfx_provide_file(),
{
    let r: Vec<u8> = vec![116u8, 100, 117, 120, 58, 112, 114, 111, 118, 105, 100, 101, 70, 105, 108, 101, 32];
    proof {
        assert(r@ =~= spec_pfx_provide_file());
    }
    r
}

/// `tdux:contentFinished`: seal the file against further content.
pub open spec fn spec_cmd_content_finished() -> Seq<u8> {
    seq![116u8, 100, 117, 120, 58, 99, 111, 110, 116, 101, 110, 116, 70, 105, 110, 105, 115, 104, 101, 100]
}

/// Builds [`spec_cmd_content_finished`] at run time.
pub fn cmd_content_finished() -> (r: Vec<u8>)
    ensures
        r@ == spec_cmd_content_finished(),
{
    let r: Vec<u8> = vec![116u8, 100, 117, 120, 58, 99, 111, 110, 116, 101, 110, 116, 70, 105, 110, 105, 115, 104, 101, 100];
    proof {
        assert(r@ =~= spec_cmd_content_finished());
    }
    r
}

/// `tdux:addTemplate `: read and register a template.
pub open spec fn spec_pfx_add_template() -> Seq<u8> {
    seq![116u8, 100, 117, 120, 58, 97, 100, 100, 84, 101, 109, 112, 108, 97, 116, 101, 32]
}

/// Builds [`spec_pfx_add_template`] at run time.
pub fn pfx_add_template() -> (r: Vec<u8>)
    ensures
        r@ == spec_pfx_add_template(),
{
    let r: Vec<u8> = vec![116u8, 100, 117, 120, 58, 97, 100, 100, 84, 101, 109, 112, 108, 97, 116, 101, 32];
    proof {
        assert(r@ =~= spec_pfx_add_template());
    }
    r
}

/// `tdux:provideFile` without its argument: triggers initialization.
pub open spec fn spec_pfx_provide_file_bare() -> Seq<u8> {
    seq![116u8, 100, 117, 120, 58, 112, 114, 111, 118, 105, 100, 101, 70, 105, 108, 101]
}

/// Builds [`spec_pfx_provide_file_bare`] at run time.
pub fn pfx_provide_file_bare() -> (r: Vec<u8>)
    ensures
        r@ == spec_pfx_provide_file_bare(),
{
    let r: Vec<u8> = vec![116u8, 100, 117, 120, 58, 112, 114, 111, 118, 105, 100, 101, 70, 105, 108, 101];
    proof {
        assert(r@ =~= spec_pfx_provide_file_bare());
    }
    r
}

/// Canvas kind rendered as an inline wrapper.
pub open spec fn spec_kind_math() -> Seq<u8> {
    seq![109u8, 97, 116, 104]
}

/// Builds [`spec_kind_math`] at run time.
pub fn kind_math() -> (r: Vec<u8>)
    ensures
        r@ == spec_kind_math(),
{
    let r: Vec<u8> = vec![109u8, 97, 116, 104];
    proof {
        assert(r@ =~= spec_kind_math());
    }
    r
}

/// Provide-special kind for the generated font CSS.
pub open spec fn spec_kind_font_css() -> Seq<u8> {
    seq![102u8, 111, 110, 116, 45, 99, 115, 115]
}

/// Builds [`spec_kind_font_css`] at run time.
pub fn kind_font_css() -> (r: Vec<u8>)
    ensures
        r@ == spec_kind_font_css(),
{
    let r: Vec<u8> = vec![102u8, 111, 110, 116, 45, 99, 115, 115];
    proof {
        assert(r@ =~= spec_kind_font_css());
    }
    r
}

/// Context key holding the accumulated content.
pub open spec fn spec_key_content() -> Seq<u8> {
    seq![116u8, 100, 117, 120, 67, 111, 110, 116, 101, 110, 116]
}

/// Builds [`spec_key_content`] at run time.
pub fn key_content() -> (r: Vec<u8>)
    ensures
        r@ == spec_key_content(),
{
    let r: Vec<u8> = vec![116u8, 100, 117, 120, 67, 111, 110, 116, 101, 110, 116];
    proof {
        assert(r@ =~= spec_key_content());
    }
    r
}

/// Context key holding the relative-root prefix.
pub open spec fn spec_key_rel_top() -> Seq<u8> {
    seq![116u8, 100, 117, 120, 82, 101, 108, 84, 111, 112]
}

/// Builds [`spec_key_rel_top`] at run time.
pub fn key_rel_top() -> (r: Vec<u8>)
    ensures
        r@ == spec_key_rel_top(),
{
    let r: Vec<u8> = vec![116u8, 100, 117, 120, 82, 101, 108, 84, 111, 112];
    proof {
        assert(r@ =~= spec_key_rel_top());
    }
    r
}

/// Context key holding the @font-face CSS block.
pub open spec fn spec_key_font_faces() -> Seq<u8> {
    seq![116u8, 100, 117, 120, 70, 111, 110, 116, 70, 97, 99, 101, 115]
}

/// Builds [`spec_key_font_faces`] at run time.
pub fn key_font_faces() -> (r: Vec<u8>)
    ensures
        r@ == spec_key_font_faces(),
{
    let r: Vec<u8> = vec![116u8, 100, 117, 120, 70, 111, 110, 116, 70, 97, 99, 101, 115];
    proof {
        assert(r@ =~= spec_key_font_faces());
    }
    r
}

/// Context key holding the main body font family.
pub open spec fn spec_key_main_body_family() -> Seq<u8> {
    seq![116u8, 100, 117, 120, 77, 97, 105, 110, 66, 111, 100, 121, 70, 111, 110, 116, 70, 97, 109, 105, 108, 121]
}

/// Builds [`spec_key_main_body_family`] at run time.
pub fn key_main_body_family() -> (r: Vec<u8>)
    ensures
        r@ == spec_key_main_body_family(),
{
    let r: Vec<u8> = vec![116u8, 100, 117, 120, 77, 97, 105, 110, 66, 111, 100, 121, 70, 111, 110, 116, 70, 97, 109, 105, 108, 121];
    proof {
        assert(r@ =~= spec_key_main_body_family());
    }
    r
}

/// Output path used when none was ever set.
pub open spec fn spec_default_output_path() -> Seq<u8> {
    seq![105u8, 110, 100, 101, 120, 46, 104, 116, 109, 108]
}

/// Builds [`spec_default_output_path`] at run time.
pub fn default_output_path() -> (r: Vec<u8>)
    ensures
        r@ == spec_default_output_path(),
{
    let r: Vec<u8> = vec![105u8, 110, 100, 101, 120, 46, 104, 116, 109, 108];
    proof {
        assert(r@ =~= spec_default_output_path());
    }
    r
}

/// Wrapper element of an inline canvas.
pub open spec fn spec_elem_span() -> Seq<u8> {
    seq![115u8, 112, 97, 110]
}

/// Builds [`spec_elem_span`] at run time.
pub fn elem_span() -> (r: Vec<u8>)
    ensures
        r@ == spec_elem_span(),
{
    let r: Vec<u8> = vec![115u8, 112, 97, 110];
    proof {
        assert(r@ =~= spec_elem_span());
    }
    r
}

/// Wrapper element of a block canvas.
pub open spec fn spec_elem_div() -> Seq<u8> {
    seq![100u8, 105, 118]
}

/// Builds [`spec_elem_div`] at run time.
pub fn elem_div() -> (r: Vec<u8>)
    ensures
        r@ == spec_elem_div(),
{
    let r: Vec<u8> = vec![100u8, 105, 118];
    proof {
        assert(r@ =~= spec_elem_div());
    }
    r
}

/// Wrapper class of an inline canvas.
pub open spec fn spec_cls_inline() -> Seq<u8> {
    seq![99u8, 97, 110, 118, 97, 115, 45, 105, 110, 108, 105, 110, 101]
}

/// Builds [`spec_cls_inline`] at run time.
pub fn cls_inline() -> (r: Vec<u8>)
    ensures
        r@ == spec_cls_inline(),
{
    let r: Vec<u8> = vec![99u8, 97, 110, 118, 97, 115, 45, 105, 110, 108, 105, 110, 101];
    proof {
        assert(r@ =~= spec_cls_inline());
    }
    r
}

/// Wrapper class of a block canvas.
pub open spec fn spec_cls_block() -> Seq<u8> {
    seq![99u8, 97, 110, 118, 97, 115, 45, 98, 108, 111, 99, 107]
}

/// Builds [`spec_cls_block`] at run time.
pub fn cls_block() -> (r: Vec<u8>)
    ensures
        r@ == spec_cls_block(),
{
    let r: Vec<u8> = vec![99u8, 97, 110, 118, 97, 115, 45, 98, 108, 111, 99, 107];
    proof {
        assert(r@ =~= spec_cls_block());
    }
    r
}

/// Start of one positioned glyph element.
pub open spec fn spec_span_open() -> Seq<u8> {
    seq![60u8, 115, 112, 97, 110, 32, 99, 108, 97, 115, 115, 61, 34, 99, 105, 34, 32, 115, 116, 121, 108, 101, 61, 34, 116, 111, 112, 58, 32]
}

/// Builds [`spec_span_open`] at run time.
pub fn span_open() -> (r: Vec<u8>)
    ensures
        r@ == spec_span_open(),
{
    let r: Vec<u8> = vec![60u8, 115, 112, 97, 110, 32, 99, 108, 97, 115, 115, 61, 34, 99, 105, 34, 32, 115, 116, 121, 108, 101, 61, 34, 116, 111, 112, 58, 32];
    proof {
        assert(r@ =~= spec_span_open());
    }
    r
}

/// Between the top and left offsets of a glyph element.
pub open spec fn spec_span_left() -> Seq<u8> {
    seq![114u8, 101, 109, 59, 32, 108, 101, 102, 116, 58, 32]
}

/// Builds [`spec_span_left`] at run time.
pub fn span_left() -> (r: Vec<u8>)
    ensures
        r@ == spec_span_left(),
{
    let r: Vec<u8> = vec![114u8, 101, 109, 59, 32, 108, 101, 102, 116, 58, 32];
    proof {
        assert(r@ =~= spec_span_left());
    }
    r
}

/// Between the left offset and the font size.
pub open spec fn spec_span_size() -> Seq<u8> {
    seq![114u8, 101, 109, 59, 32, 102, 111, 110, 116, 45, 115, 105, 122, 101, 58, 32]
}

/// Builds [`spec_span_size`] at run time.
pub fn span_size() -> (r: Vec<u8>)
    ensures
        r@ == spec_span_size(),
{
    let r: Vec<u8> = vec![114u8, 101, 109, 59, 32, 102, 111, 110, 116, 45, 115, 105, 122, 101, 58, 32];
    proof {
        assert(r@ =~= spec_span_size());
    }
    r
}

/// Between the font size and the font family.
pub open spec fn spec_span_family() -> Seq<u8> {
    seq![114u8, 101, 109, 59, 32, 102, 111, 110, 116, 45, 102, 97, 109, 105, 108, 121, 58, 32]
}

/// Builds [`spec_span_family`] at run time.
pub fn span_family() -> (r: Vec<u8>)
    ensures
        r@ == spec_span_family(),
{
    let r: Vec<u8> = vec![114u8, 101, 109, 59, 32, 102, 111, 110, 116, 45, 102, 97, 109, 105, 108, 121, 58, 32];
    proof {
        assert(r@ =~= spec_span_family());
    }
    r
}

/// End of an opening tag with a quoted attribute.
pub open spec fn spec_quote_gt() -> Seq<u8> {
    seq![34u8, 62]
}

/// Builds [`spec_quote_gt`] at run time.
pub fn quote_gt() -> (r: Vec<u8>)
    ensures
        r@ == spec_quote_gt(),
{
    let r: Vec<u8> = vec![34u8, 62];
    proof {
        assert(r@ =~= spec_quote_gt());
    }
    r
}

/// End of one positioned glyph element.
pub open spec fn spec_span_close() -> Seq<u8> {
    seq![60u8, 47, 115, 112, 97, 110, 62]
}

/// Builds [`spec_span_close`] at run time.
pub fn span_close() -> (r: Vec<u8>)
    ensures
        r@ == spec_span_close(),
{
    let r: Vec<u8> = vec![60u8, 47, 115, 112, 97, 110, 62];
    proof {
        assert(r@ =~= spec_span_close());
    }
    r
}

/// Between the wrapper element name and its class.
pub open spec fn spec_wrap_class() -> Seq<u8> {
    seq![32u8, 99, 108, 97, 115, 115, 61, 34, 99, 97, 110, 118, 97, 115, 32]
}

/// Builds [`spec_wrap_class`] at run time.
pub fn wrap_class() -> (r: Vec<u8>)
    ensures
        r@ == spec_wrap_class(),
{
    let r: Vec<u8> = vec![32u8, 99, 108, 97, 115, 115, 61, 34, 99, 97, 110, 118, 97, 115, 32];
    proof {
        assert(r@ =~= spec_wrap_class());
    }
    r
}

/// Between the wrapper class and its width.
pub open spec fn spec_wrap_style() -> Seq<u8> {
    seq![34u8, 32, 115, 116, 121, 108, 101, 61, 34, 119, 105, 100, 116, 104, 58, 32]
}

/// Builds [`spec_wrap_style`] at run time.
pub fn wrap_style() -> (r: Vec<u8>)
    ensures
        r@ == spec_wrap_style(),
{
    let r: Vec<u8> = vec![34u8, 32, 115, 116, 121, 108, 101, 61, 34, 119, 105, 100, 116, 104, 58, 32];
    proof {
        assert(r@ =~= spec_wrap_style());
    }
    r
}

/// Between the wrapper width and height.
pub open spec fn spec_wrap_height() -> Seq<u8> {
    seq![114u8, 101, 109, 59, 32, 104, 101, 105, 103, 104, 116, 58, 32]
}

/// Builds [`spec_wrap_height`] at run time.
pub fn wrap_height() -> (r: Vec<u8>)
    ensures
        r@ == spec_wrap_height(),
{
    let r: Vec<u8> = vec![114u8, 101, 109, 59, 32, 104, 101, 105, 103, 104, 116, 58, 32];
    proof {
        assert(r@ =~= spec_wrap_height());
    }
    r
}

/// Between the wrapper height and left padding.
pub open spec fn spec_wrap_padding() -> Seq<u8> {
    seq![114u8, 101, 109, 59, 32, 112, 97, 100, 100, 105, 110, 103, 45, 108, 101, 102, 116, 58, 32]
}

/// Builds [`spec_wrap_padding`] at run time.
pub fn wrap_padding() -> (r: Vec<u8>)
    ensures
        r@ == spec_wrap_padding(),
{
    let r: Vec<u8> = vec![114u8, 101, 109, 59, 32, 112, 97, 100, 100, 105, 110, 103, 45, 108, 101, 102, 116, 58, 32];
    proof {
        assert(r@ =~= spec_wrap_padding());
    }
    r
}

/// The root-em CSS unit.
pub open spec fn spec_rem_unit() -> Seq<u8> {
    seq![114u8, 101, 109]
}

/// Builds [`spec_rem_unit`] at run time.
pub fn rem_unit() -> (r: Vec<u8>)
    ensures
        r@ == spec_rem_unit(),
{
    let r: Vec<u8> = vec![114u8, 101, 109];
    proof {
        assert(r@ =~= spec_rem_unit());
    }
    r
}

/// Vertical-align declaration of an inline wrapper.
pub open spec fn spec_valign() -> Seq<u8> {
    seq![59u8, 32, 118, 101, 114, 116, 105, 99, 97, 108, 45, 97, 108, 105, 103, 110, 58, 32]
}

/// Builds [`spec_valign`] at run time.
pub fn valign() -> (r: Vec<u8>)
    ensures
        r@ == spec_valign(),
{
    let r: Vec<u8> = vec![59u8, 32, 118, 101, 114, 116, 105, 99, 97, 108, 45, 97, 108, 105, 103, 110, 58, 32];
    proof {
        assert(r@ =~= spec_valign());
    }
    r
}

} // verus!
