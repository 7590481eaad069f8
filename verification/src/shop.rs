use vstd::prelude::*;
use crate::catalog::Products;
use crate::error::CustomError;
use crate::order_number::{order_number_text, OrderNumber};
use crate::product::{Ticket, TicketView};

verus! {

/// A page of a list that the shop answers with.
#[derive(Debug, PartialEq, Eq)]
pub struct Connection<T> {
    pub nodes: Vec<T>,
}

/// One line of an order: a SKU and how many pieces of it were bought.
#[derive(Debug, PartialEq, Eq)]
pub struct LineItem {
    pub sku: String,
    pub quantity: usize,
}

/// An order of the shop.
#[derive(Debug, PartialEq, Eq)]
pub struct Order {
    pub line_items: Connection<LineItem>,
}

/// A line of an order as plain values.
pub ghost struct LineItemView {
    pub sku: Seq<char>,
    pub quantity: nat,
}

impl View for LineItem {
    type V = LineItemView;

    open spec fn view(&self) -> LineItemView {
        LineItemView { sku: self.sku@, quantity: self.quantity as nat }
    }
}

/// The tickets of a catalog as plain values.
pub open spec fn ticket_list(tickets: Seq<Ticket>) -> Seq<TicketView> {
    tickets.map_values(|ticket: Ticket| ticket@)
}

/// The lines of an order as plain values.
pub open spec fn line_list(lines: Seq<LineItem>) -> Seq<LineItemView> {
    lines.map_values(|line: LineItem| line@)
}

/// The ticket that a SKU is: the last of the list with that SKU, if any.
pub open spec fn ticket_for(tickets: Seq<TicketView>, sku: Seq<char>) -> Option<TicketView>
    decreases tickets.len(),
{
    if tickets.len() == 0 {
        None
    } else if tickets.last().sku == sku {
        Some(tickets.last())
    } else {
        ticket_for(tickets.drop_last(), sku)
    }
}

/// The single summons that a line of an order grants.
pub open spec fn line_singles(tickets: Seq<TicketView>, line: LineItemView) -> nat {
    match ticket_for(tickets, line.sku) {
        Some(ticket) => ticket.singles * line.quantity,
        None => 0,
    }
}

/// The bulk summons that a line of an order grants.
pub open spec fn line_bulks(tickets: Seq<TicketView>, line: LineItemView) -> nat {
    match ticket_for(tickets, line.sku) {
        Some(ticket) => ticket.bulks * line.quantity,
        None => 0,
    }
}

/// The single summons that the lines of an order grant together.
pub open spec fn granted_singles(tickets: Seq<TicketView>, lines: Seq<LineItemView>) -> nat
    decreases lines.len(),
{
    if lines.len() == 0 {
        0
    } else {
        granted_singles(tickets, lines.drop_last()) + line_singles(tickets, lines.last())
    }
}

/// The bulk summons that the lines of an order grant together.
pub open spec fn granted_bulks(tickets: Seq<TicketView>, lines: Seq<LineItemView>) -> nat
    decreases lines.len(),
{
    if lines.len() == 0 {
        0
    } else {
        granted_bulks(tickets, lines.drop_last()) + line_bulks(tickets, lines.last())
    }
}

/// The first lines of an order grant no more than all of them.
pub proof fn lemma_granted_prefix(tickets: Seq<TicketView>, lines: Seq<LineItemView>, count: int)
    requires
        0 <= count <= lines.len(),
    ensures
        granted_singles(tickets, lines.take(count)) <= granted_singles(tickets, lines),
        granted_bulks(tickets, lines.take(count)) <= granted_bulks(tickets, lines),
    decreases lines.len(),
{
    if count == lines.len() {
        assert(lines.take(count) == lines);
    } else {
        lemma_granted_prefix(tickets, lines.drop_last(), count);
        assert(lines.drop_last().take(count) == lines.take(count));
    }
}

impl Products {
    /// The ticket that a SKU is, if it is one.
    pub fn find_ticket(&self, sku: &String) -> (found: Option<&Ticket>)
        ensures
            found matches Some(ticket) ==> ticket_for(ticket_list(self.ticket@), sku@) == Some(ticket@),
            found is None ==> ticket_for(ticket_list(self.ticket@), sku@) is None,
    {
        let ghost tickets = ticket_list(self.ticket@);
        let mut found: Option<&Ticket> = None;
        let mut i: usize = 0;
        while i < self.ticket.len()
            invariant
                i <= self.ticket@.len(),
                tickets == ticket_list(self.ticket@),
                found matches Some(ticket) ==> ticket_for(tickets.take(i as int), sku@) == Some(ticket@),
                found is None ==> ticket_for(tickets.take(i as int), sku@) is None,
            decreases self.ticket@.len() - i,
        {
            proof {
                assert(tickets.take(i + 1).drop_last() == tickets.take(i as int));
                assert(tickets.take(i + 1).last() == self.ticket@[i as int]@);
            }
            if self.ticket[i].sku == *sku {
                found = Some(&self.ticket[i]);
            }
            i += 1;
        }
        proof {
            assert(tickets.take(i as int) == tickets);
        }
        found
    }

    /// The quotas that an order is entitled to, single summons first: each
    /// line that is a ticket grants what the ticket grants, once for every
    /// piece bought. There is no answer where a quota does not fit the
    /// machine's integers.
    pub fn quota(&self, order: &Order) -> (granted: Option<(usize, usize)>)
        ensures
            granted == if granted_singles(ticket_list(self.ticket@), line_list(order.line_items.nodes@))
                <= usize::MAX && granted_bulks(ticket_list(self.ticket@), line_list(order.line_items.nodes@))
                <= usize::MAX {
                Some(
                    (
                        granted_singles(
                            ticket_list(self.ticket@),
                            line_list(order.line_items.nodes@),
                        ) as usize,
                        granted_bulks(ticket_list(self.ticket@), line_list(order.line_items.nodes@)) as usize,
                    ),
                )
            } else {
                None
            },
    {
        let ghost tickets = ticket_list(self.ticket@);
        let ghost lines = line_list(order.line_items.nodes@);
        let mut singles: usize = 0;
        let mut bulks: usize = 0;
        let mut i: usize = 0;
        while i < order.line_items.nodes.len()
            invariant
                i <= order.line_items.nodes@.len(),
                tickets == ticket_list(self.ticket@),
                lines == line_list(order.line_items.nodes@),
                singles == granted_singles(tickets, lines.take(i as int)),
                bulks == granted_bulks(tickets, lines.take(i as int)),
            decreases order.line_items.nodes@.len() - i,
        {
            let line = &order.line_items.nodes[i];
            proof {
                assert(lines.take(i + 1).drop_last() == lines.take(i as int));
                assert(lines.take(i + 1).last() == line@);
                lemma_granted_prefix(tickets, lines, i + 1);
            }
            match self.find_ticket(&line.sku) {
                Some(ticket) => {
                    let more_singles = match ticket.singles.checked_mul(line.quantity) {
                        Some(n) => n,
                        None => {
                            return None;
                        },
                    };
                    let more_bulks = match ticket.bulks.checked_mul(line.quantity) {
                        Some(n) => n,
                        None => {
                            return None;
                        },
                    };
                    singles = match singles.checked_add(more_singles) {
                        Some(n) => n,
                        None => {
                            return None;
                        },
                    };
                    bulks = match bulks.checked_add(more_bulks) {
                        Some(n) => n,
                        None => {
                            return None;
                        },
                    };
                },
                None => {},
            }
            i += 1;
        }
        proof {
            assert(lines.take(i as int) == lines);
        }
        Some((singles, bulks))
    }
}

/// The question that asks the shop for the lines of an order.
pub open spec fn order_query_text(order: OrderNumber) -> Seq<char> {
    "query GetOrder { orders(first: 1, query: \"name:'"@ + order_number_text(order)
        + "'\") { nodes { lineItems(first: 30) { nodes { sku quantity } } } } }"@
}

/// What a customer is told whose order the shop does not know.
pub open spec fn not_found_text(order: OrderNumber) -> Seq<char> {
    "Order "@ + order_number_text(order)
        + " was not found. You will find your order number in the email you receive from our shop."@
}

/// The question that asks the shop for the lines of an order.
pub fn order_query(order_number: OrderNumber) -> (query: String)
    ensures
        query@ == order_query_text(order_number),
{
    let mut query = String::from_str("query GetOrder { orders(first: 1, query: \"name:'");
    let number = order_number.to_string();
    query.append(number.as_str());
    query.append("'\") { nodes { lineItems(first: 30) { nodes { sku quantity } } } } }");
    query
}

/// The order that the shop answered with: the first of the page, and an
/// error for the customer where the page is empty.
pub fn first_order(found: Connection<Order>, order_number: OrderNumber) -> (order: Result<Order, CustomError>)
    ensures
        found.nodes@.len() > 0 ==> order == Ok::<Order, CustomError>(found.nodes@[0]),
        found.nodes@.len() == 0 ==> (order matches Err(e) && e.0@ == not_found_text(order_number)),
{
    let mut nodes = found.nodes;
    if nodes.len() == 0 {
        let mut text = String::from_str("Order ");
        let number = order_number.to_string();
        text.append(number.as_str());
        text.append(" was not found. You will find your order number in the email you receive from our shop.");
        Err(CustomError(text))
    } else {
        Ok(nodes.remove(0))
    }
}

} // verus!
