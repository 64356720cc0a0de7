//! The item tree: byte strings and lists of items, and the decoder that builds
//! one from its canonical length-prefixed encoding.

use vstd::prelude::*;
use vstd::slice::{slice_subrange, slice_to_vec};
use crate::error::{DecodeError, prepend, result_view};
use crate::header::{Header, LIST_PREFIX, read_span, span_of, starts_list};

verus! {

/// How deep lists may be nested in an input.
pub const MAX_DEPTH: usize = 32;

/// A decoded item: a byte string, or a list of items in the order of the input.
#[derive(Debug, PartialEq, Eq)]
pub enum Item {
    Bytes(Vec<u8>),
    List(Vec<Item>),
}

/// The mathematical value of an `Item`.
pub enum ItemView {
    Bytes(Seq<u8>),
    List(Seq<ItemView>),
}

/// The values of a sequence of items.
pub open spec fn views(items: Seq<Item>) -> Seq<ItemView>
    decreases items,
{
    Seq::new(
        items.len(),
        |i: int|
            if 0 <= i < items.len() {
                items[i]@
            } else {
                ItemView::List(Seq::empty())
            },
    )
}

impl View for Item {
    type V = ItemView;

    open spec fn view(&self) -> ItemView
        decreases self,
    {
        match self {
            Item::Bytes(bytes) => ItemView::Bytes(bytes@),
            Item::List(items) => ItemView::List(views(items@)),
        }
    }
}

/// The item that `bytes` encodes, given its accepted header: `bytes` is the
/// whole item, prefix and payload. `depth` is how many levels of lists may
/// still be opened.
///
/// An item whose first byte is `LIST_PREFIX` or more is a list, and its payload must
/// fall apart into items exactly. Any other item is a byte string; one byte
/// below `0x80` stands for itself and must not come with a prefix.
pub open spec fn item_of(bytes: Seq<u8>, header: Header, depth: nat) -> Result<ItemView, DecodeError>
    decreases depth, 0nat,
{
    let payload = bytes.subrange(header.header_len as int, bytes.len() as int);
    if bytes.len() > 0 && bytes[0] >= LIST_PREFIX {
        if depth == 0 {
            Err(DecodeError::NestingTooDeep)
        } else {
            match items_of(payload, (depth - 1) as nat) {
                Ok(items) => Ok(ItemView::List(items)),
                Err(e) => Err(e),
            }
        }
    } else if header.header_len == 1 && header.value_len == 1 && payload[0] < 0x80 {
        Err(DecodeError::NonCanonicalLength)
    } else {
        Ok(ItemView::Bytes(payload))
    }
}

/// The items that the payload of a list falls apart into, first to last. The
/// first failure, reading from the left, is the failure of the whole.
pub open spec fn items_of(payload: Seq<u8>, depth: nat) -> Result<Seq<ItemView>, DecodeError>
    decreases depth, payload.len() + 1,
{
    if payload.len() == 0 {
        Ok(Seq::empty())
    } else {
        match span_of(payload) {
            Err(e) => Err(e),
            Ok(header) => {
                let end = header.header_len + header.value_len;
                match item_of(payload.subrange(0, end), header, depth) {
                    Err(e) => Err(e),
                    Ok(first) => prepend(
                        seq![first],
                        items_of(payload.subrange(end, payload.len() as int), depth),
                    ),
                }
            },
        }
    }
}

/// The item that `bytes` encodes as a whole: a single item that ends where the
/// input ends.
pub open spec fn parse_item(bytes: Seq<u8>) -> Result<ItemView, DecodeError> {
    if bytes.len() == 0 {
        Err(DecodeError::EmptyInput)
    } else {
        match span_of(bytes) {
            Err(e) => Err(e),
            Ok(header) => if header.header_len + header.value_len != bytes.len() {
                Err(DecodeError::TrailingBytes)
            } else {
                item_of(bytes, header, MAX_DEPTH as nat)
            },
        }
    }
}

/// Builds the item that `bytes` holds, given its accepted header.
fn build_item(bytes: &[u8], header: Header, depth: usize) -> (r: Result<Item, DecodeError>)
    requires
        header.header_len + header.value_len == bytes@.len(),
        bytes@.len() > 0,
    ensures
        result_view(r) == item_of(bytes@, header, depth as nat),
    decreases depth,
{
    let payload = slice_subrange(bytes, header.header_len, bytes.len());
    if starts_list(bytes) {
        if depth == 0 {
            return Err(DecodeError::NestingTooDeep);
        }
        let mut children: Vec<Item> = Vec::new();
        let mut offset: usize = 0;
        proof {
            let all = items_of(payload@, (depth - 1) as nat);
            assert(payload@.subrange(0, payload@.len() as int) =~= payload@);
            assert(views(children@) =~= Seq::empty());
            if let Ok(items) = all {
                assert(Seq::<ItemView>::empty() + items =~= items);
            }
        }
        while offset < payload.len()
            invariant
                offset <= payload@.len(),
                depth > 0,
                bytes@.len() > 0 && bytes@[0] >= LIST_PREFIX,
                payload@ == bytes@.subrange(header.header_len as int, bytes@.len() as int),
                items_of(payload@, (depth - 1) as nat) == prepend(
                    views(children@),
                    items_of(
                        payload@.subrange(offset as int, payload@.len() as int),
                        (depth - 1) as nat,
                    ),
                ),
            decreases payload@.len() - offset,
        {
            let rest = slice_subrange(payload, offset, payload.len());
            let child_header = match read_span(rest) {
                Ok(h) => h,
                Err(e) => { return Err(e); },
            };
            let end: usize = child_header.header_len + child_header.value_len;
            let child = match build_item(slice_subrange(rest, 0, end), child_header, depth - 1) {
                Ok(item) => item,
                Err(e) => { return Err(e); },
            };
            proof {
                let after = items_of(
                    payload@.subrange(offset + end, payload@.len() as int),
                    (depth - 1) as nat,
                );
                assert(rest@.subrange(end as int, rest@.len() as int) =~= payload@.subrange(
                    offset + end,
                    payload@.len() as int,
                ));
                assert(views(children@.push(child)) =~= views(children@) + seq![child@]);
                if let Ok(items) = after {
                    assert(views(children@) + (seq![child@] + items) =~= views(
                        children@.push(child),
                    ) + items);
                }
            }
            children.push(child);
            offset = offset + end;
        }
        proof {
            assert(views(children@) + Seq::<ItemView>::empty() =~= views(children@));
        }
        Ok(Item::List(children))
    } else if header.header_len == 1 && header.value_len == 1 && payload[0] < 0x80 {
        Err(DecodeError::NonCanonicalLength)
    } else {
        Ok(Item::Bytes(slice_to_vec(payload)))
    }
}

/// Decodes `raw` as one item that fills it exactly.
pub fn decode_item(raw: &[u8]) -> (r: Result<Item, DecodeError>)
    ensures
        result_view(r) == parse_item(raw@),
{
    if raw.len() == 0 {
        return Err(DecodeError::EmptyInput);
    }
    let header = match read_span(raw) {
        Ok(h) => h,
        Err(e) => { return Err(e); },
    };
    if header.header_len + header.value_len != raw.len() {
        return Err(DecodeError::TrailingBytes);
    }
    build_item(raw, header, MAX_DEPTH)
}

} // verus!
