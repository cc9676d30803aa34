//! New orders and the JSON object that each shape of order is sent as.

use vstd::prelude::*;
use vstd::string::StringExecFns;
use crate::amount::Amount;
use crate::error::{Error, JsonFailure};
use crate::json::{
    field_text, field_texts, fields_of, has_key, json_string_literal, object_text, quoted,
    to_json_string, write_object, Field, Member,
};
use crate::text::joined;
use crate::side::Side;

verus! {

/// How much to trade: a quantity of the base asset, or an amount of the
/// quote asset to spend. An order carries one of the two, never both.
#[derive(Debug)]
pub enum SizeOrFunds {
    Size(Amount),
    Funds(Amount),
}

/// An order that has not been placed yet.
#[derive(Debug)]
pub enum NewOrder {
    Limit { side: Side, product_id: String, price: Amount, size: Amount },
    Market { side: Side, product_id: String, size_or_funds: SizeOrFunds },
    Stop { side: Side, product_id: String, price: Amount, size_or_funds: SizeOrFunds },
}

/// What a `SizeOrFunds` holds, as text.
pub ghost enum Quantity {
    Size(Seq<char>),
    Funds(Seq<char>),
}

/// What a `NewOrder` holds, as text.
pub ghost enum OrderModel {
    Limit { side: Side, product_id: Seq<char>, price: Seq<char>, size: Seq<char> },
    Market { side: Side, product_id: Seq<char>, quantity: Quantity },
    Stop { side: Side, product_id: Seq<char>, price: Seq<char>, quantity: Quantity },
}

impl View for SizeOrFunds {
    type V = Quantity;

    open spec fn view(&self) -> Quantity {
        match self {
            SizeOrFunds::Size(amount) => Quantity::Size(amount@),
            SizeOrFunds::Funds(amount) => Quantity::Funds(amount@),
        }
    }
}

impl View for NewOrder {
    type V = OrderModel;

    open spec fn view(&self) -> OrderModel {
        match self {
            NewOrder::Limit { side, product_id, price, size } => OrderModel::Limit {
                side: *side,
                product_id: product_id@,
                price: price@,
                size: size@,
            },
            NewOrder::Market { side, product_id, size_or_funds } => OrderModel::Market {
                side: *side,
                product_id: product_id@,
                quantity: size_or_funds@,
            },
            NewOrder::Stop { side, product_id, price, size_or_funds } => OrderModel::Stop {
                side: *side,
                product_id: product_id@,
                price: price@,
                quantity: size_or_funds@,
            },
        }
    }
}

impl OrderModel {
    /// The product that the order is for.
    pub open spec fn product(self) -> Seq<char> {
        match self {
            OrderModel::Limit { product_id, .. } => product_id,
            OrderModel::Market { product_id, .. } => product_id,
            OrderModel::Stop { product_id, .. } => product_id,
        }
    }

    /// Whether the order is sized by a quantity of the base asset.
    pub open spec fn is_sized(self) -> bool {
        match self {
            OrderModel::Limit { .. } => true,
            OrderModel::Market { quantity, .. } => quantity is Size,
            OrderModel::Stop { quantity, .. } => quantity is Size,
        }
    }
}

/// The member that names the shape of the order.
pub open spec fn kind_field(kind: Seq<char>) -> Field {
    Field { key: "type"@, value: quoted(kind) }
}

/// The member that names the side, by its lower-case wire word.
pub open spec fn side_field(side: Side) -> Field {
    Field { key: "side"@, value: quoted(side.wire()) }
}

/// The member that carries the quantity: `size` or `funds`, whichever the
/// order holds. The other key is not written at all.
pub open spec fn quantity_field(quantity: Quantity) -> Field {
    match quantity {
        Quantity::Size(amount) => Field { key: "size"@, value: amount },
        Quantity::Funds(amount) => Field { key: "funds"@, value: amount },
    }
}

/// The members of the object that an order is sent as, in the order in which
/// they are written. `product` is the JSON literal of the product's name.
pub open spec fn order_fields(order: OrderModel, product: Seq<char>) -> Seq<Field> {
    match order {
        OrderModel::Limit { side, price, size, .. } => seq![
            kind_field("limit"@),
            side_field(side),
            Field { key: "product_id"@, value: product },
            Field { key: "price"@, value: price },
            Field { key: "size"@, value: size },
        ],
        OrderModel::Market { side, quantity, .. } => seq![
            kind_field("market"@),
            side_field(side),
            Field { key: "product_id"@, value: product },
            quantity_field(quantity),
        ],
        OrderModel::Stop { side, price, quantity, .. } => seq![
            kind_field("stop"@),
            side_field(side),
            Field { key: "product_id"@, value: product },
            Field { key: "price"@, value: price },
            quantity_field(quantity),
        ],
    }
}

/// The JSON text that an order is sent as.
pub open spec fn order_json(order: OrderModel) -> Seq<char> {
    object_text(order_fields(order, json_string_literal(order.product())))
}

/// Every order is written with exactly one of the keys `size` and `funds`:
/// `size` where the order is sized by quantity, `funds` where it is sized by
/// the amount to spend. The key that does not apply is absent.
pub proof fn lemma_one_of_size_and_funds(order: OrderModel, product: Seq<char>)
    ensures
        has_key(order_fields(order, product), "size"@) == order.is_sized(),
        has_key(order_fields(order, product), "funds"@) == !order.is_sized(),
{
    let fields = order_fields(order, product);
    reveal_strlit("type");
    reveal_strlit("side");
    reveal_strlit("product_id");
    reveal_strlit("price");
    reveal_strlit("size");
    reveal_strlit("funds");
    assert("size"@[0] != "type"@[0]);
    assert("size"@[2] != "side"@[2]);
    assert("size"@.len() != "product_id"@.len());
    assert("size"@.len() != "price"@.len());
    assert("size"@.len() != "funds"@.len());
    assert("funds"@.len() != "type"@.len());
    assert("funds"@.len() != "side"@.len());
    assert("funds"@.len() != "product_id"@.len());
    assert("funds"@[0] != "price"@[0]);
    let last = fields.len() - 1;
    if order.is_sized() {
        assert(fields[last].key == "size"@);
    } else {
        assert(fields[last].key == "funds"@);
    }
}

/// The text of the quantity's member behind the comma that precedes it.
pub open spec fn quantity_text(quantity: Quantity) -> Seq<char> {
    match quantity {
        Quantity::Size(amount) => ",\"size\":"@ + amount,
        Quantity::Funds(amount) => ",\"funds\":"@ + amount,
    }
}

/// Four texts joined are the four with the separator between each two.
proof fn lemma_joined_four(
    a: Seq<char>,
    b: Seq<char>,
    c: Seq<char>,
    d: Seq<char>,
    sep: Seq<char>,
)
    ensures
        joined(seq![a, b, c, d], sep) == a + sep + b + sep + c + sep + d,
{
    let parts = seq![a, b, c, d];
    reveal_with_fuel(joined, 5);
    assert(parts.drop_last() =~= seq![a, b, c]);
    assert(parts.drop_last().drop_last() =~= seq![a, b]);
    assert(parts.drop_last().drop_last().drop_last() =~= seq![a]);
}

/// Five texts joined are the five with the separator between each two.
proof fn lemma_joined_five(
    a: Seq<char>,
    b: Seq<char>,
    c: Seq<char>,
    d: Seq<char>,
    e: Seq<char>,
    sep: Seq<char>,
)
    ensures
        joined(seq![a, b, c, d, e], sep) == a + sep + b + sep + c + sep + d + sep + e,
{
    let parts = seq![a, b, c, d, e];
    assert(parts.drop_last() =~= seq![a, b, c, d]);
    assert(parts.last() == e);
    lemma_joined_four(a, b, c, d, sep);
}

/// How an object starts that names its shape first and its side second.
pub open spec fn opening(kind: Seq<char>) -> Seq<char> {
    seq!['{'] + field_text(kind_field(kind)) + seq![','] + quoted("side"@) + seq![':']
}

/// How a member that is not the first starts: a comma, the quoted key, a colon.
pub open spec fn next_key(key: Seq<char>) -> Seq<char> {
    seq![','] + quoted(key) + seq![':']
}

/// The openings and keys, letter for letter.
proof fn lemma_literals()
    ensures
        opening("limit"@) == "{\"type\":\"limit\",\"side\":"@,
        opening("market"@) == "{\"type\":\"market\",\"side\":"@,
        opening("stop"@) == "{\"type\":\"stop\",\"side\":"@,
        next_key("product_id"@) == ",\"product_id\":"@,
        next_key("price"@) == ",\"price\":"@,
        next_key("size"@) == ",\"size\":"@,
        next_key("funds"@) == ",\"funds\":"@,
{
    reveal_strlit("type");
    reveal_strlit("side");
    reveal_strlit("product_id");
    reveal_strlit("price");
    reveal_strlit("size");
    reveal_strlit("funds");
    reveal_strlit("limit");
    reveal_strlit("market");
    reveal_strlit("stop");
    reveal_strlit("{\"type\":\"limit\",\"side\":");
    reveal_strlit("{\"type\":\"market\",\"side\":");
    reveal_strlit("{\"type\":\"stop\",\"side\":");
    reveal_strlit(",\"product_id\":");
    reveal_strlit(",\"price\":");
    reveal_strlit(",\"size\":");
    reveal_strlit(",\"funds\":");
    assert(opening("limit"@) =~= "{\"type\":\"limit\",\"side\":"@);
    assert(opening("market"@) =~= "{\"type\":\"market\",\"side\":"@);
    assert(opening("stop"@) =~= "{\"type\":\"stop\",\"side\":"@);
    assert(next_key("product_id"@) =~= ",\"product_id\":"@);
    assert(next_key("price"@) =~= ",\"price\":"@);
    assert(next_key("size"@) =~= ",\"size\":"@);
    assert(next_key("funds"@) =~= ",\"funds\":"@);
}

/// An object of four members, in pieces: the opening, and each further
/// member behind its key.
proof fn lemma_four_members(kind: Seq<char>, side: Seq<char>, b: Field, c: Field)
    ensures
        object_text(seq![kind_field(kind), Field { key: "side"@, value: side }, b, c]) == opening(
            kind,
        ) + side + next_key(b.key) + b.value + next_key(c.key) + c.value + seq!['}'],
{
    let a = Field { key: "side"@, value: side };
    let fields = seq![kind_field(kind), a, b, c];
    assert(field_texts(fields) =~= seq![
        field_text(kind_field(kind)),
        field_text(a),
        field_text(b),
        field_text(c),
    ]);
    lemma_joined_four(
        field_text(kind_field(kind)),
        field_text(a),
        field_text(b),
        field_text(c),
        seq![','],
    );
    assert(object_text(fields) =~= opening(kind) + side + next_key(b.key) + b.value + next_key(
        c.key,
    ) + c.value + seq!['}']);
}

/// An object of five members, in pieces.
proof fn lemma_five_members(kind: Seq<char>, side: Seq<char>, b: Field, c: Field, d: Field)
    ensures
        object_text(seq![kind_field(kind), Field { key: "side"@, value: side }, b, c, d])
            == opening(kind) + side + next_key(b.key) + b.value + next_key(c.key) + c.value
            + next_key(d.key) + d.value + seq!['}'],
{
    let a = Field { key: "side"@, value: side };
    let fields = seq![kind_field(kind), a, b, c, d];
    assert(field_texts(fields) =~= seq![
        field_text(kind_field(kind)),
        field_text(a),
        field_text(b),
        field_text(c),
        field_text(d),
    ]);
    lemma_joined_five(
        field_text(kind_field(kind)),
        field_text(a),
        field_text(b),
        field_text(c),
        field_text(d),
        seq![','],
    );
    assert(object_text(fields) =~= opening(kind) + side + next_key(b.key) + b.value + next_key(
        c.key,
    ) + c.value + next_key(d.key) + d.value + seq!['}']);
}

/// The text of each shape of order, written out: the discriminant first,
/// then side and product, then the price where the shape has one, and last
/// the quantity under its own key.
pub proof fn lemma_order_text(order: OrderModel)
    ensures
        order_json(order) == match order {
            OrderModel::Limit { side, product_id, price, size } => "{\"type\":\"limit\",\"side\":"@
                + quoted(side.wire()) + ",\"product_id\":"@ + json_string_literal(product_id)
                + ",\"price\":"@ + price + ",\"size\":"@ + size + "}"@,
            OrderModel::Market { side, product_id, quantity } => "{\"type\":\"market\",\"side\":"@
                + quoted(side.wire()) + ",\"product_id\":"@ + json_string_literal(product_id)
                + quantity_text(quantity) + "}"@,
            OrderModel::Stop { side, product_id, price, quantity } => "{\"type\":\"stop\",\"side\":"@
                + quoted(side.wire()) + ",\"product_id\":"@ + json_string_literal(product_id)
                + ",\"price\":"@ + price + quantity_text(quantity) + "}"@,
        },
{
    lemma_literals();
    reveal_strlit("}");
    assert("}"@ =~= seq!['}']);
    let product = Field { key: "product_id"@, value: json_string_literal(order.product()) };
    match order {
        OrderModel::Limit { side, product_id, price, size } => {
            lemma_five_members(
                "limit"@,
                quoted(side.wire()),
                product,
                Field { key: "price"@, value: price },
                Field { key: "size"@, value: size },
            );
        },
        OrderModel::Market { side, product_id, quantity } => {
            lemma_four_members("market"@, quoted(side.wire()), product, quantity_field(quantity));
            let q = quantity_field(quantity);
            assert(next_key(q.key) + q.value == quantity_text(quantity));
            let before = opening("market"@) + quoted(side.wire()) + next_key(product.key)
                + product.value;
            assert(before + next_key(q.key) + q.value + seq!['}'] =~= before + quantity_text(
                quantity,
            ) + seq!['}']);
        },
        OrderModel::Stop { side, product_id, price, quantity } => {
            lemma_five_members(
                "stop"@,
                quoted(side.wire()),
                product,
                Field { key: "price"@, value: price },
                quantity_field(quantity),
            );
            let q = quantity_field(quantity);
            assert(next_key(q.key) + q.value == quantity_text(quantity));
            let before = opening("stop"@) + quoted(side.wire()) + next_key(product.key)
                + product.value + next_key("price"@) + price;
            assert(before + next_key(q.key) + q.value + seq!['}'] =~= before + quantity_text(
                quantity,
            ) + seq!['}']);
        },
    }
}

/// No key is written twice.
pub proof fn lemma_keys_are_distinct(order: OrderModel, product: Seq<char>)
    ensures
        forall|i: int, j: int|
            0 <= i < j < order_fields(order, product).len() ==> order_fields(order, product)[i].key
                != order_fields(order, product)[j].key,
{
    let fields = order_fields(order, product);
    reveal_strlit("type");
    reveal_strlit("side");
    reveal_strlit("product_id");
    reveal_strlit("price");
    reveal_strlit("size");
    reveal_strlit("funds");
    assert("type"@[0] != "side"@[0]);
    assert("type"@[0] != "size"@[0]);
    assert("side"@[2] != "size"@[2]);
    assert("price"@[0] != "funds"@[0]);
    assert("type"@.len() == 4 && "side"@.len() == 4 && "size"@.len() == 4);
    assert("price"@.len() == 5 && "funds"@.len() == 5 && "product_id"@.len() == 10);
    assert forall|i: int, j: int| 0 <= i < j < fields.len() implies fields[i].key
        != fields[j].key by {
        if fields[i].key == fields[j].key {
            assert(fields[i].key.len() == fields[j].key.len());
            assert(fields[i].key[0] == fields[j].key[0]);
            assert(fields[i].key[2] == fields[j].key[2]);
        }
    }
}

impl SizeOrFunds {
    /// The member that this quantity is written as.
    fn member(&self) -> (m: Member)
        ensures
            m@ == quantity_field(self@),
    {
        match self {
            SizeOrFunds::Size(amount) => Member::raw("size", amount.as_str()),
            SizeOrFunds::Funds(amount) => Member::raw("funds", amount.as_str()),
        }
    }
}

impl NewOrder {
    /// An order to trade `size` of the product at `price` or better.
    pub fn limit(side: Side, product_id: &str, size: Amount, price: Amount) -> (order: NewOrder)
        ensures
            order@ == (OrderModel::Limit {
                side,
                product_id: product_id@,
                price: price@,
                size: size@,
            }),
    {
        NewOrder::Limit { side, product_id: String::from_str(product_id), price, size }
    }

    /// An order to trade at the market's price.
    pub fn market(side: Side, product_id: &str, size_or_funds: SizeOrFunds) -> (order: NewOrder)
        ensures
            order@ == (OrderModel::Market {
                side,
                product_id: product_id@,
                quantity: size_or_funds@,
            }),
    {
        NewOrder::Market { side, product_id: String::from_str(product_id), size_or_funds }
    }

    /// An order that is placed once the market reaches `price`.
    pub fn stop(side: Side, product_id: &str, size_or_funds: SizeOrFunds, price: Amount) -> (order:
        NewOrder)
        ensures
            order@ == (OrderModel::Stop {
                side,
                product_id: product_id@,
                price: price@,
                quantity: size_or_funds@,
            }),
    {
        NewOrder::Stop { side, product_id: String::from_str(product_id), price, size_or_funds }
    }

    /// The name of the product that the order is for.
    pub fn product_id(&self) -> (id: &str)
        ensures
            id@ == self@.product(),
    {
        match self {
            NewOrder::Limit { product_id, .. } => product_id.as_str(),
            NewOrder::Market { product_id, .. } => product_id.as_str(),
            NewOrder::Stop { product_id, .. } => product_id.as_str(),
        }
    }

    /// Writes the order as a JSON object, given the JSON literal of its
    /// product's name.
    pub fn serialize_fields(&self, product: &str) -> (text: String)
        ensures
            text@ == object_text(order_fields(self@, product@)),
    {
        let mut members: Vec<Member> = Vec::new();
        match self {
            NewOrder::Limit { side, price, size, .. } => {
                members.push(Member::word("type", "limit"));
                members.push(Member::word("side", side.serialize()));
                members.push(Member::raw("product_id", product));
                members.push(Member::raw("price", price.as_str()));
                members.push(Member::raw("size", size.as_str()));
            },
            NewOrder::Market { side, size_or_funds, .. } => {
                members.push(Member::word("type", "market"));
                members.push(Member::word("side", side.serialize()));
                members.push(Member::raw("product_id", product));
                members.push(size_or_funds.member());
            },
            NewOrder::Stop { side, price, size_or_funds, .. } => {
                members.push(Member::word("type", "stop"));
                members.push(Member::word("side", side.serialize()));
                members.push(Member::raw("product_id", product));
                members.push(Member::raw("price", price.as_str()));
                members.push(size_or_funds.member());
            },
        }
        assert(fields_of(members@) =~= order_fields(self@, product@));
        write_object(&members)
    }

    /// Finishes the encoding of the order once the codec has answered for the
    /// product's name: the object where it gave the literal, its failure
    /// where it gave none.
    pub fn serialize_with(&self, product: Result<String, String>) -> (r: Result<String, Error>)
        ensures
            match product {
                Ok(literal) => r matches Ok(text) && text@ == object_text(
                    order_fields(self@, literal@),
                ),
                Err(message) => r matches Err(Error::Json(JsonFailure::Codec(m))) && m@
                    == message@,
            },
    {
        match product {
            Ok(literal) => Ok(self.serialize_fields(literal.as_str())),
            Err(message) => Err(Error::Json(JsonFailure::Codec(message))),
        }
    }

    /// Encodes the order as the JSON object that the exchange expects. Every
    /// order has an encoding.
    pub fn serialize(&self) -> (r: Result<String, Error>)
        ensures
            r matches Ok(text) && text@ == order_json(self@),
    {
        self.serialize_with(to_json_string(self.product_id()))
    }
}

} // verus!
