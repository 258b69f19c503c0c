//! Assembly of the HTML byte stream: tag and text appends to the content
//! buffer, and the absolutely-positioned elements a closed canvas emits.
//!
//! The numeric style values (root-em offsets and sizes) arrive as already
//! formatted byte strings; producing them from the device units is the
//! caller's floating-point work.

use vstd::prelude::*;

use crate::protocol::{
    cls_block, cls_inline, elem_div, elem_span, quote_gt, rem_unit, span_close, span_family,
    span_left, span_open, span_size, spec_cls_block, spec_cls_inline, spec_elem_div,
    spec_elem_span, spec_quote_gt, spec_rem_unit, spec_span_close, spec_span_family,
    spec_span_left, spec_span_open, spec_span_size, spec_valign, spec_wrap_class,
    spec_wrap_height, spec_wrap_padding, spec_wrap_style, wrap_class, wrap_height, wrap_padding,
    wrap_style,
};

verus! {

/// `<element>`.
pub open spec fn spec_open_tag(element: Seq<u8>) -> Seq<u8> {
    seq![60u8] + element + seq![62u8]
}

/// `</element>`.
pub open spec fn spec_close_tag(element: Seq<u8>) -> Seq<u8> {
    seq![60u8, 47u8] + element + seq![62u8]
}

/// Text joined to the buffer: a single space is inserted first only when
/// the buffer is non-empty and does not end with `>`.
pub open spec fn spec_text_append(content: Seq<u8>, text: Seq<u8>) -> Seq<u8> {
    if content.len() > 0 && content.last() != 62 {
        content + seq![32u8] + text
    } else {
        content + text
    }
}

/// Appends an opening HTML tag to the content buffer.
pub fn append_open_tag(content: &mut Vec<u8>, element: &[u8])
    ensures
        final(content)@ == old(content)@ + spec_open_tag(element@),
{
    content.push(60);
    content.extend_from_slice(element);
    content.push(62);
    proof {
        assert(content@ =~= old(content)@ + spec_open_tag(element@));
    }
}

/// Appends a closing HTML tag to the content buffer.
pub fn append_close_tag(content: &mut Vec<u8>, element: &[u8])
    ensures
        final(content)@ == old(content)@ + spec_close_tag(element@),
{
    content.push(60);
    content.push(47);
    content.extend_from_slice(element);
    content.push(62);
    proof {
        assert(content@ =~= old(content)@ + spec_close_tag(element@));
    }
}

/// Appends text to the content buffer under the space rule.
pub fn append_text(content: &mut Vec<u8>, text: &[u8])
    ensures
        final(content)@ == spec_text_append(old(content)@, text@),
{
    if content.len() > 0 {
        let last = content[content.len() - 1];
        if last != 62 {
            content.push(32);
        }
    }
    content.extend_from_slice(text);
    proof {
        assert(content@ =~= spec_text_append(old(content)@, text@));
    }
}

/// One absolutely-positioned glyph element: the fixed span head, the
/// formatted top/left/font-size values, the font family, and the mapped
/// character in UTF-8.
pub open spec fn spec_glyph_span(
    ch: char,
    family: Seq<u8>,
    top: Seq<u8>,
    left: Seq<u8>,
    size: Seq<u8>,
) -> Seq<u8> {
    spec_span_open() + top + spec_span_left() + left + spec_span_size() + size + spec_span_family()
        + family + spec_quote_gt() + vstd::utf8::encode_scalar(ch as u32) + spec_span_close()
}

/// Builds one positioned glyph element.
pub fn assemble_glyph_span(ch: char, family: &[u8], top: &[u8], left: &[u8], size: &[u8]) -> (r:
    Vec<u8>)
    ensures
        r@ == spec_glyph_span(ch, family@, top@, left@, size@),
{
    let mut r = span_open();
    r.extend_from_slice(top);
    let piece = span_left();
    r.extend_from_slice(piece.as_slice());
    r.extend_from_slice(left);
    let piece = span_size();
    r.extend_from_slice(piece.as_slice());
    r.extend_from_slice(size);
    let piece = span_family();
    r.extend_from_slice(piece.as_slice());
    r.extend_from_slice(family);
    let piece = quote_gt();
    r.extend_from_slice(piece.as_slice());
    let encoded = crate::bytes::encode_char(ch);
    r.extend_from_slice(encoded.as_slice());
    let piece = span_close();
    r.extend_from_slice(piece.as_slice());
    proof {
        assert(r@ =~= spec_glyph_span(ch, family@, top@, left@, size@));
    }
    r
}

/// The wrapper of a finished canvas: a `span.canvas.canvas-inline` with a
/// vertical-align declaration for an inline region, else a
/// `div.canvas.canvas-block`; width, height and left padding carry the
/// formatted bounding-box extents, and the glyph elements sit inside.
pub open spec fn spec_canvas_wrapper(
    inline: bool,
    width: Seq<u8>,
    height: Seq<u8>,
    padding: Seq<u8>,
    valign: Seq<u8>,
    inner: Seq<u8>,
) -> Seq<u8> {
    let element = if inline {
        spec_elem_span()
    } else {
        spec_elem_div()
    };
    let class = if inline {
        spec_cls_inline()
    } else {
        spec_cls_block()
    };
    let valign_piece = if inline {
        spec_valign() + valign + spec_rem_unit()
    } else {
        Seq::<u8>::empty()
    };
    seq![60u8] + element + spec_wrap_class() + class + spec_wrap_style() + width
        + spec_wrap_height() + height + spec_wrap_padding() + padding + spec_rem_unit()
        + valign_piece + spec_quote_gt() + inner + seq![60u8, 47u8] + element + seq![62u8]
}

/// Builds the wrapper of a finished canvas around its glyph elements.
pub fn assemble_canvas_wrapper(
    inline: bool,
    width: &[u8],
    height: &[u8],
    padding: &[u8],
    valign: &[u8],
    inner: &[u8],
) -> (r: Vec<u8>)
    ensures
        r@ == spec_canvas_wrapper(inline, width@, height@, padding@, valign@, inner@),
{
    let element = if inline {
        elem_span()
    } else {
        elem_div()
    };
    let class = if inline {
        cls_inline()
    } else {
        cls_block()
    };
    let mut r: Vec<u8> = Vec::new();
    r.push(60);
    r.extend_from_slice(element.as_slice());
    let piece = wrap_class();
    r.extend_from_slice(piece.as_slice());
    r.extend_from_slice(class.as_slice());
    let piece = wrap_style();
    r.extend_from_slice(piece.as_slice());
    r.extend_from_slice(width);
    let piece = wrap_height();
    r.extend_from_slice(piece.as_slice());
    r.extend_from_slice(height);
    let piece = wrap_padding();
    r.extend_from_slice(piece.as_slice());
    r.extend_from_slice(padding);
    let piece = rem_unit();
    r.extend_from_slice(piece.as_slice());
    if inline {
        let piece = crate::protocol::valign();
        r.extend_from_slice(piece.as_slice());
        r.extend_from_slice(valign);
        let piece = rem_unit();
        r.extend_from_slice(piece.as_slice());
    }
    let piece = quote_gt();
    r.extend_from_slice(piece.as_slice());
    r.extend_from_slice(inner);
    r.push(60);
    r.push(47);
    r.extend_from_slice(element.as_slice());
    r.push(62);
    proof {
        assert(r@ =~= spec_canvas_wrapper(inline, width@, height@, padding@, valign@, inner@));
    }
    r
}

} // verus!
