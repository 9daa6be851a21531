//! Reading back what the serializer writes: the orders of a write command
//! come back from its bytes, with adjacent texts joined.

use vstd::prelude::*;

use crate::encoding::{lemma_encode_floor, lemma_printable_round_trip, Encoding};
use crate::server::extended_field_attributes::{
    efa_from_bytes, lemma_efa_round_trip, lemma_field_attribute_round_trip, ExtendedFieldAttribute,
};
use crate::server::stream::{
    addr_from_bytes, attrs_bytes, attrs_from_bytes, order_bytes, order_from_bytes, orders_bytes, orders_from_bytes,
    orders_view, text_bytes, text_of, text_run_len, lemma_text_run_len, OrderView, StreamFormatError, WriteCommand, MAX_CELLS,
};
use crate::server::wcc::FieldAttribute;

verus! {

/// A printable ASCII character.
pub open spec fn printable(c: char) -> bool {
    0x20 <= c as u32 <= 0x7E
}

impl OrderView {
    /// Any text that the order carries is printable ASCII.
    pub open spec fn printable_text(self) -> bool {
        match self {
            OrderView::SendText(s) => forall|i: int| 0 <= i < s.len() ==> printable(#[trigger] s[i]),
            OrderView::RepeatToAddress(_, c) => printable(c),
            _ => true,
        }
    }
}

/// A text order for `acc`, or nothing when `acc` is empty.
pub open spec fn pending_text(acc: Seq<char>) -> Seq<OrderView> {
    if acc.len() == 0 {
        seq![]
    } else {
        seq![OrderView::SendText(acc)]
    }
}

/// The orders as they read back, with `acc` the text still to be joined to
/// whatever text follows: adjacent texts become one and empty texts vanish.
pub open spec fn merged_from(acc: Seq<char>, orders: Seq<OrderView>) -> Seq<OrderView>
    decreases orders.len(),
{
    if orders.len() == 0 {
        pending_text(acc)
    } else {
        match orders[0] {
            OrderView::SendText(s) => merged_from(acc + s, orders.drop_first()),
            o => pending_text(acc) + seq![o] + merged_from(seq![], orders.drop_first()),
        }
    }
}

/// The orders with adjacent texts joined and empty texts dropped.
pub open spec fn merged(orders: Seq<OrderView>) -> Seq<OrderView> {
    merged_from(seq![], orders)
}

proof fn lemma_orders_bytes_cons(o: OrderView, rest: Seq<OrderView>)
    ensures
        orders_bytes(seq![o] + rest) == order_bytes(o) + orders_bytes(rest),
    decreases rest.len(),
{
    let all = seq![o] + rest;
    if rest.len() == 0 {
        assert(all.drop_last() =~= Seq::<OrderView>::empty());
        assert(all.last() == o);
        assert(orders_bytes(all.drop_last()) == Seq::<u8>::empty());
        assert(orders_bytes(rest) == Seq::<u8>::empty());
        assert(orders_bytes(all) =~= order_bytes(o) + orders_bytes(rest));
    } else {
        assert(all.drop_last() =~= seq![o] + rest.drop_last());
        assert(all.last() == rest.last());
        lemma_orders_bytes_cons(o, rest.drop_last());
        assert(orders_bytes(all) == orders_bytes(seq![o] + rest.drop_last()) + order_bytes(rest.last()));
        assert(orders_bytes(rest) == orders_bytes(rest.drop_last()) + order_bytes(rest.last()));
        assert(orders_bytes(all) =~= order_bytes(o) + orders_bytes(rest));
    }
}

proof fn lemma_attrs_bytes_cons(a: ExtendedFieldAttribute, rest: Seq<ExtendedFieldAttribute>)
    ensures
        attrs_bytes(seq![a] + rest) == seq![a.spec_encoded().0, a.spec_encoded().1] + attrs_bytes(rest),
    decreases rest.len(),
{
    let all = seq![a] + rest;
    if rest.len() == 0 {
        assert(all.drop_last() =~= Seq::<ExtendedFieldAttribute>::empty());
        assert(all.last() == a);
        assert(attrs_bytes(all.drop_last()) == Seq::<u8>::empty());
        assert(attrs_bytes(rest) == Seq::<u8>::empty());
        assert(attrs_bytes(all) =~= seq![a.spec_encoded().0, a.spec_encoded().1] + attrs_bytes(rest));
    } else {
        assert(all.drop_last() =~= seq![a] + rest.drop_last());
        assert(all.last() == rest.last());
        lemma_attrs_bytes_cons(a, rest.drop_last());
        let e = rest.last().spec_encoded();
        assert(attrs_bytes(all) == attrs_bytes(seq![a] + rest.drop_last()) + seq![e.0, e.1]);
        assert(attrs_bytes(rest) == attrs_bytes(rest.drop_last()) + seq![e.0, e.1]);
        assert(attrs_bytes(all) =~= seq![a.spec_encoded().0, a.spec_encoded().1] + attrs_bytes(rest));
    }
}

proof fn lemma_attrs_bytes_len(attrs: Seq<ExtendedFieldAttribute>)
    ensures
        attrs_bytes(attrs).len() == 2 * attrs.len(),
    decreases attrs.len(),
{
    if attrs.len() > 0 {
        lemma_attrs_bytes_len(attrs.drop_last());
    }
}

proof fn lemma_attrs_round_trip(attrs: Seq<ExtendedFieldAttribute>)
    requires
        forall|i: int| 0 <= i < attrs.len() ==> (#[trigger] attrs[i]).wf(),
    ensures
        attrs_from_bytes(attrs_bytes(attrs)) == Ok::<Seq<ExtendedFieldAttribute>, StreamFormatError>(attrs),
    decreases attrs.len(),
{
    if attrs.len() > 0 {
        let a = attrs[0];
        let rest = attrs.drop_first();
        assert(attrs =~= seq![a] + rest);
        lemma_attrs_bytes_cons(a, rest);
        assert forall|i: int| 0 <= i < rest.len() implies (#[trigger] rest[i]).wf() by {
            assert(rest[i] == attrs[i + 1]);
        }
        lemma_attrs_round_trip(rest);
        assert(attrs[0].wf());
        lemma_efa_round_trip(a);
        let b = attrs_bytes(attrs);
        assert(b.len() >= 2);
        assert(b[0] == a.spec_encoded().0 && b[1] == a.spec_encoded().1);
        assert(efa_from_bytes(b[0], b[1]) == Ok::<ExtendedFieldAttribute, StreamFormatError>(a));
        assert(b.subrange(2, b.len() as int) =~= attrs_bytes(rest));
        assert(seq![a] + rest =~= attrs);
    } else {
        assert(attrs_bytes(attrs) =~= Seq::<u8>::empty());
        assert(attrs =~= Seq::<ExtendedFieldAttribute>::empty());
    }
}

proof fn lemma_addr_round_trip(a: u16)
    requires
        a < MAX_CELLS,
    ensures
        addr_from_bytes((a / 256) as u8, (a % 256) as u8) == Ok::<u16, StreamFormatError>(a),
{
}

/// A well-formed order other than text reads back from the front of its
/// bytes, whatever follows; its first byte is its order code.
proof fn lemma_order_round_trip(o: OrderView, tail: Seq<u8>)
    requires
        o.wf(),
        o.printable_text(),
        !(o is SendText),
    ensures
        order_bytes(o).len() >= 1,
        order_bytes(o)[0] < 0x40,
        order_from_bytes(order_bytes(o) + tail) == Ok::<(OrderView, int), StreamFormatError>(
            (o, order_bytes(o).len() as int),
        ),
{
    let b = order_bytes(o) + tail;
    match o {
        OrderView::StartField(fa) => {
            lemma_field_attribute_round_trip(fa);
            assert(FieldAttribute { bits: b[1] & 0x3F } == fa);
        },
        OrderView::StartFieldExtended(attrs) => {
            lemma_attrs_bytes_len(attrs);
            lemma_attrs_round_trip(attrs);
            assert(b.subrange(2, 2 + 2 * b[1]) =~= attrs_bytes(attrs));
        },
        OrderView::ModifyField(attrs) => {
            lemma_attrs_bytes_len(attrs);
            lemma_attrs_round_trip(attrs);
            assert(b.subrange(2, 2 + 2 * b[1]) =~= attrs_bytes(attrs));
        },
        OrderView::SetBufferAddress(a) => lemma_addr_round_trip(a),
        OrderView::InsertCursor(a) => lemma_addr_round_trip(a),
        OrderView::EraseUnprotectedToAddress(a) => lemma_addr_round_trip(a),
        OrderView::SetAttribute(e) => lemma_efa_round_trip(e),
        OrderView::RepeatToAddress(a, c) => {
            lemma_addr_round_trip(a);
            lemma_printable_round_trip(Encoding::CP037, c);
        },
        _ => {},
    }
}

/// The text bytes of printable characters are all text bytes and read back
/// as those characters.
proof fn lemma_text_round_trip(acc: Seq<char>, tail: Seq<u8>)
    requires
        forall|i: int| 0 <= i < acc.len() ==> printable(#[trigger] acc[i]),
        tail.len() == 0 || tail[0] < 0x40,
    ensures
        text_run_len(text_bytes(acc) + tail) == acc.len(),
        text_of((text_bytes(acc) + tail).subrange(0, acc.len() as int)) == acc,
{
    let t = text_bytes(acc);
    let b = t + tail;
    assert forall|i: int| 0 <= i < acc.len() implies b[i] >= 0x40 by {
        lemma_encode_floor(Encoding::CP037, acc[i]);
    }
    lemma_text_run_len(b, acc.len() as int);
    assert forall|i: int| 0 <= i < acc.len() implies text_of(b.subrange(0, acc.len() as int))[i] == acc[i] by {
        lemma_printable_round_trip(Encoding::CP037, acc[i]);
    }
    assert(text_of(b.subrange(0, acc.len() as int)) =~= acc);
}

/// Reading back pending text bytes followed by the bytes of some orders.
proof fn lemma_orders_round_trip_from(acc: Seq<char>, orders: Seq<OrderView>)
    requires
        forall|i: int| 0 <= i < acc.len() ==> printable(#[trigger] acc[i]),
        forall|i: int| 0 <= i < orders.len() ==> (#[trigger] orders[i]).wf() && orders[i].printable_text(),
    ensures
        orders_from_bytes(text_bytes(acc) + orders_bytes(orders)) == Ok::<Seq<OrderView>, StreamFormatError>(
            merged_from(acc, orders),
        ),
    decreases orders.len(), acc.len(),
{
    let t = text_bytes(acc);
    if orders.len() == 0 {
        let b = t + orders_bytes(orders);
        assert(b =~= t);
        if acc.len() > 0 {
            lemma_text_round_trip(acc, seq![]);
            assert(t + Seq::<u8>::empty() =~= t);
            assert(b.subrange(acc.len() as int, b.len() as int) =~= Seq::<u8>::empty());
            assert(orders_from_bytes(b.subrange(acc.len() as int, b.len() as int)) == Ok::<Seq<OrderView>, StreamFormatError>(seq![]));
            assert(seq![OrderView::SendText(acc)] + Seq::<OrderView>::empty() =~= seq![OrderView::SendText(acc)]);
        }
    } else {
        let o = orders[0];
        let rest = orders.drop_first();
        assert(orders =~= seq![o] + rest);
        lemma_orders_bytes_cons(o, rest);
        assert forall|i: int| 0 <= i < rest.len() implies (#[trigger] rest[i]).wf() && rest[i].printable_text() by {
            assert(rest[i] == orders[i + 1]);
        }
        assert(orders[0].wf() && orders[0].printable_text());
        let tail = orders_bytes(rest);
        match o {
            OrderView::SendText(s) => {
                let acc2 = acc + s;
                assert forall|i: int| 0 <= i < acc2.len() implies printable(#[trigger] acc2[i]) by {
                    if i >= acc.len() {
                        assert(acc2[i] == s[i - acc.len()]);
                    }
                }
                assert(text_bytes(acc2) =~= t + text_bytes(s));
                assert(t + (text_bytes(s) + tail) =~= text_bytes(acc2) + tail);
                lemma_orders_round_trip_from(acc2, rest);
            },
            _ => {
                let ob = order_bytes(o);
                lemma_order_round_trip(o, tail);
                lemma_orders_round_trip_from(seq![], rest);
                assert(text_bytes(Seq::<char>::empty()) =~= Seq::<u8>::empty());
                assert(Seq::<u8>::empty() + tail =~= tail);
                let after = ob + tail;
                assert(after.subrange(ob.len() as int, after.len() as int) =~= tail);
                // The order and what follows it.
                assert(orders_from_bytes(after) == Ok::<Seq<OrderView>, StreamFormatError>(
                    seq![o] + merged_from(seq![], rest),
                ));
                let b = t + after;
                if acc.len() == 0 {
                    assert(b =~= after);
                    assert(pending_text(acc) + seq![o] + merged_from(seq![], rest) =~= seq![o]
                        + merged_from(seq![], rest));
                } else {
                    lemma_text_round_trip(acc, after);
                    assert(b.subrange(acc.len() as int, b.len() as int) =~= after);
                    assert(pending_text(acc) + seq![o] + merged_from(seq![], rest) =~= seq![
                        OrderView::SendText(acc),
                    ] + (seq![o] + merged_from(seq![], rest)));
                }
            },
        }
    }
}

/// Serializing a command and reading back what follows its command code and
/// write control character gives its orders, except that adjacent texts
/// come back joined and empty texts vanish. This holds for every command
/// whose addresses have 14 bits, whose attribute lists have at most 255
/// entries and whose text is printable ASCII.
pub proof fn lemma_stream_round_trip(cmd: WriteCommand)
    requires
        cmd.wf(),
        forall|i: int| 0 <= i < cmd.orders@.len() ==> (#[trigger] cmd.orders@[i])@.printable_text(),
    ensures
        orders_from_bytes(cmd.spec_bytes().subrange(2, cmd.spec_bytes().len() as int)) == Ok::<
            Seq<OrderView>,
            StreamFormatError,
        >(merged(orders_view(cmd.orders@))),
{
    let os = orders_view(cmd.orders@);
    assert forall|i: int| 0 <= i < os.len() implies (#[trigger] os[i]).wf() && os[i].printable_text() by {
        assert(os[i] == cmd.orders@[i]@);
    }
    lemma_orders_round_trip_from(seq![], os);
    assert(text_bytes(Seq::<char>::empty()) + orders_bytes(os) =~= cmd.spec_bytes().subrange(
        2,
        cmd.spec_bytes().len() as int,
    ));
}

} // verus!
