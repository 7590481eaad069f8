use vstd::prelude::*;
use a1_notation::Address;
use crate::order_number::{order_number_of, order_number_text, OrderNumber};
use crate::pulls_data::PullsData;

verus! {

/// One order as the sheet holds it: whose it is, its summons, and the row
/// of the sheet that it came from, if it came from one.
#[derive(Debug, PartialEq, Eq)]
pub struct Row {
    pub order_number: OrderNumber,
    pub discord_user_id: String,
    pub discord_username: String,
    pub pulls: PullsData,
    pub existing: Option<usize>,
}

/// The first cells of a row of the sheet, read but for the summons, which
/// are still in their stored form.
#[derive(Debug, PartialEq, Eq)]
pub struct RowHead {
    pub order_number: OrderNumber,
    pub discord_user_id: String,
    pub discord_username: String,
    pub pulls: String,
}

/// The name of a cell in A1 notation, as `a1_notation::Address` writes it
/// for a column and a row that are counted from 0.
pub uninterp spec fn a1_address(column: usize, row: usize) -> Seq<char>;

/// Names a cell with `a1_notation::Address::new` and its `Display`. The
/// name is a function of column and row alone and is taken on trust under
/// `a1_address`. The crate adds 1 to the row, so the largest row is left out.
#[verifier::external_body]
fn cell_address(column: usize, row: usize) -> (name: String)
    requires
        row < usize::MAX,
    ensures
        name@ == a1_address(column, row),
{
    Address::new(column, row).to_string()
}

/// The range of a row of `cells` cells, from its first cell to its last.
pub open spec fn row_range(row: usize, cells: usize) -> Seq<char> {
    a1_address(0, row) + ":"@ + a1_address((cells - 1) as usize, row)
}

/// The range of the first four columns of a sheet of `rows` rows.
pub open spec fn sheet_range(rows: usize) -> Seq<char> {
    "A1:"@ + a1_address(3, rows)
}

/// The range that a row is written to: its own row if it came from the
/// sheet, the first row if it is new.
pub fn save_range(existing: Option<usize>, cells: usize) -> (range: String)
    requires
        cells > 0,
        existing matches Some(row) ==> row < usize::MAX,
    ensures
        range@ == row_range(
            match existing {
                Some(row) => row,
                None => 0,
            },
            cells,
        ),
{
    let row = match existing {
        Some(row) => row,
        None => 0,
    };
    let mut range = cell_address(0, row);
    range.append(":");
    let last = cell_address(cells - 1, row);
    range.append(last.as_str());
    range
}

/// The range that the orders are read from.
pub fn load_range(rows: usize) -> (range: String)
    requires
        rows < usize::MAX,
    ensures
        range@ == sheet_range(rows),
{
    let mut range = String::from_str("A1:");
    let last = cell_address(3, rows);
    range.append(last.as_str());
    range
}

/// How a customer is addressed in a message.
pub open spec fn mention_text(user_id: Seq<char>) -> Seq<char> {
    "<@"@ + user_id + ">"@
}

impl Row {
    /// Whether the order is that of the given customer.
    pub fn is_owned_by(&self, user_id: &String) -> (owned: bool)
        ensures
            owned == (self.discord_user_id@ == user_id@),
    {
        self.discord_user_id == *user_id
    }

    /// The customer of the order as a message addresses them.
    pub fn mention(&self) -> (text: String)
        ensures
            text@ == mention_text(self.discord_user_id@),
    {
        let mut text = String::from_str("<@");
        text.append(self.discord_user_id.as_str());
        text.append(">");
        text
    }

    /// The row of an order that is not on the sheet yet.
    pub fn new(
        order_number: OrderNumber,
        discord_user_id: String,
        discord_username: String,
        pulls: PullsData,
    ) -> (row: Row)
        ensures
            row.order_number == order_number,
            row.discord_user_id == discord_user_id,
            row.discord_username == discord_username,
            row.pulls == pulls,
            row.existing is None,
    {
        Row { order_number, discord_user_id, discord_username, pulls, existing: None }
    }

    /// The cells of the row: the order number, the customer's id and name,
    /// the summons in their stored form, and then the name of every product
    /// that the order has revealed.
    pub fn into_cells(self, stored: String) -> (cells: Vec<String>)
        ensures
            cells@.len() == 4 + self.pulls@.names().len(),
            cells@[0]@ == order_number_text(self.order_number),
            cells@[1]@ == self.discord_user_id@,
            cells@[2]@ == self.discord_username@,
            cells@[3]@ == stored@,
            forall|k: int| 0 <= k < self.pulls@.names().len() ==> (#[trigger] cells@[4 + k])@ == self.pulls@.names()[k],
    {
        let names = self.pulls.names();
        let mut cells: Vec<String> = Vec::new();
        cells.push(self.order_number.to_string());
        cells.push(self.discord_user_id);
        cells.push(self.discord_username);
        cells.push(stored);
        let mut k: usize = 0;
        while k < names.len()
            invariant
                k <= names@.len(),
                cells@.len() == 4 + k,
                cells@[0]@ == order_number_text(self.order_number),
                cells@[1]@ == self.discord_user_id@,
                cells@[2]@ == self.discord_username@,
                cells@[3]@ == stored@,
                forall|j: int| 0 <= j < k ==> (#[trigger] cells@[4 + j])@ == names@[j]@,
            decreases names@.len() - k,
        {
            cells.push(names[k].clone());
            k += 1;
        }
        cells
    }

    /// Reads the first four cells of a row of the sheet. A row with fewer
    /// cells, or whose first cell is no order number, is no order.
    pub fn head(cells: &Vec<String>) -> (head: Option<RowHead>)
        ensures
            head is Some <==> cells@.len() >= 4 && order_number_of(cells@[0]@) is Some,
            head matches Some(h) ==> {
                &&& Some(h.order_number) == order_number_of(cells@[0]@)
                &&& h.discord_user_id@ == cells@[1]@
                &&& h.discord_username@ == cells@[2]@
                &&& h.pulls@ == cells@[3]@
            },
    {
        if cells.len() < 4 {
            return None;
        }
        match OrderNumber::from_str(cells[0].as_str()) {
            Some(order_number) => Some(
                RowHead {
                    order_number,
                    discord_user_id: cells[1].clone(),
                    discord_username: cells[2].clone(),
                    pulls: cells[3].clone(),
                },
            ),
            None => None,
        }
    }

    /// The row of an order that was read from the sheet.
    pub fn from_head(head: RowHead, pulls: PullsData, existing: usize) -> (row: Row)
        ensures
            row.order_number == head.order_number,
            row.discord_user_id == head.discord_user_id,
            row.discord_username == head.discord_username,
            row.pulls == pulls,
            row.existing == Some(existing),
    {
        Row {
            order_number: head.order_number,
            discord_user_id: head.discord_user_id,
            discord_username: head.discord_username,
            pulls,
            existing: Some(existing),
        }
    }
}

} // verus!
