//! The SQL text of each statement and the values bound to it.

use vstd::prelude::*;

verus! {

/// The character of a decimal digit.
pub open spec fn digit_char(d: nat) -> char {
    if d == 0 { '0' }
    else if d == 1 { '1' }
    else if d == 2 { '2' }
    else if d == 3 { '3' }
    else if d == 4 { '4' }
    else if d == 5 { '5' }
    else if d == 6 { '6' }
    else if d == 7 { '7' }
    else if d == 8 { '8' }
    else { '9' }
}

/// The decimal notation of `n`, without sign or leading zeros.
pub open spec fn decimal(n: nat) -> Seq<char>
    decreases n,
{
    if n < 10 {
        seq![digit_char(n)]
    } else {
        decimal(n / 10) + seq![digit_char(n % 10)]
    }
}

fn digit_str(d: usize) -> (r: &'static str)
    requires
        d < 10,
    ensures
        r@ == seq![digit_char(d as nat)],
{
    proof {
        reveal_strlit("0");
        reveal_strlit("1");
        reveal_strlit("2");
        reveal_strlit("3");
        reveal_strlit("4");
        reveal_strlit("5");
        reveal_strlit("6");
        reveal_strlit("7");
        reveal_strlit("8");
        reveal_strlit("9");
    }
    match d {
        0 => "0",
        1 => "1",
        2 => "2",
        3 => "3",
        4 => "4",
        5 => "5",
        6 => "6",
        7 => "7",
        8 => "8",
        _ => "9",
    }
}

/// Writes `n` in decimal.
pub fn decimal_string(n: usize) -> (r: String)
    ensures
        r@ == decimal(n as nat),
    decreases n,
{
    if n < 10 {
        String::from_str(digit_str(n))
    } else {
        let mut s = decimal_string(n / 10);
        s.append(digit_str(n % 10));
        s
    }
}

/// The group of three positional markers bound to row `i` (counted from 0):
/// `($3i+1, $3i+2, $3i+3)`.
pub open spec fn row_placeholder(i: nat) -> Seq<char> {
    seq!['(', '$'] + decimal(3 * i + 1) + seq![',', ' ', '$'] + decimal(3 * i + 2) + seq![
        ',',
        ' ',
        '$',
    ] + decimal(3 * i + 3) + seq![')']
}

/// The groups of rows `0..n`, joined by `", "`; empty for no rows.
pub open spec fn value_placeholders(n: nat) -> Seq<char>
    decreases n,
{
    if n == 0 {
        Seq::empty()
    } else if n == 1 {
        row_placeholder(0)
    } else {
        value_placeholders((n - 1) as nat) + seq![',', ' '] + row_placeholder((n - 1) as nat)
    }
}

fn row_placeholder_string(i: usize) -> (r: String)
    requires
        i < usize::MAX / 3,
    ensures
        r@ == row_placeholder(i as nat),
{
    proof {
        reveal_strlit("($");
        reveal_strlit(", $");
        reveal_strlit(")");
    }
    let base: usize = 3 * i;
    let mut s = String::from_str("($");
    s.append(decimal_string(base + 1).as_str());
    s.append(", $");
    s.append(decimal_string(base + 2).as_str());
    s.append(", $");
    s.append(decimal_string(base + 3).as_str());
    s.append(")");
    s
}

/// The `VALUES` list of a multi-row insert of `num_of_items` rows of three
/// columns each, with markers numbered from `$1` up: for three rows
/// `($1, $2, $3), ($4, $5, $6), ($7, $8, $9)`.
pub fn generate_value_placeholders_for_insert_statement(num_of_items: usize) -> (r: String)
    requires
        num_of_items <= usize::MAX / 3,
    ensures
        r@ == value_placeholders(num_of_items as nat),
{
    let mut s = String::new();
    let mut i: usize = 0;
    while i < num_of_items
        invariant
            i <= num_of_items <= usize::MAX / 3,
            s@ == value_placeholders(i as nat),
        decreases num_of_items - i,
    {
        proof {
            reveal_strlit(", ");
        }
        if i > 0 {
            s.append(", ");
        }
        let row = row_placeholder_string(i);
        s.append(row.as_str());
        assert(s@ =~= value_placeholders((i + 1) as nat));
        i = i + 1;
    }
    s
}

/// Lists the order items of table `$1`, each joined with its table's number and
/// its menu item's name.
pub const SELECT_ITEMS_FOR_TABLE: &'static str = "SELECT toi.*, t.table_number, mi.name menu_item_name FROM table_order_items toi INNER JOIN menu_items mi ON toi.menu_item_id = mi.id INNER JOIN tables t ON toi.table_id = t.id WHERE table_id = $1;";

/// Reads order item `$2` of table `$1`, joined as in [`SELECT_ITEMS_FOR_TABLE`].
pub const SELECT_ITEM: &'static str = "SELECT toi.*, t.table_number, mi.name menu_item_name FROM table_order_items toi INNER JOIN menu_items mi ON toi.menu_item_id = mi.id INNER JOIN tables t ON toi.table_id = t.id WHERE table_id = $1 AND toi.id = $2;";

/// One row for each order item `$2` of table `$1`.
pub const SELECT_ITEM_EXISTS: &'static str = "SELECT 1 FROM table_order_items WHERE table_id = $1 AND id = $2;";

/// Removes order item `$2` of table `$1`.
pub const DELETE_ITEM: &'static str = "DELETE FROM table_order_items WHERE table_id = $1 AND id = $2;";

/// What comes before the `VALUES` list of the insert statement.
pub const INSERT_ITEMS_HEAD: &'static str = "INSERT INTO table_order_items (table_id, menu_item_id, prep_time_minutes) VALUES ";

/// What comes after the `VALUES` list of the insert statement.
pub const INSERT_ITEMS_TAIL: &'static str = ";";

/// The statement that inserts `rows` order items at once.
pub open spec fn insert_sql(rows: nat) -> Seq<char> {
    INSERT_ITEMS_HEAD@ + value_placeholders(rows) + INSERT_ITEMS_TAIL@
}

/// The values bound to the insert statement: for each menu item, in order, the
/// table, the menu item and the preparation time.
pub open spec fn insert_param_seq(table_id: i32, menu_item_ids: Seq<i32>, prep_time_minutes: i32) -> Seq<i32>
    decreases menu_item_ids.len(),
{
    if menu_item_ids.len() == 0 {
        Seq::empty()
    } else {
        insert_param_seq(table_id, menu_item_ids.drop_last(), prep_time_minutes) + seq![
            table_id,
            menu_item_ids.last(),
            prep_time_minutes,
        ]
    }
}

/// The statement that inserts `rows` order items at once.
pub fn insert_statement(rows: usize) -> (r: String)
    requires
        rows <= usize::MAX / 3,
    ensures
        r@ == insert_sql(rows as nat),
{
    let mut s = String::from_str(INSERT_ITEMS_HEAD);
    s.append(generate_value_placeholders_for_insert_statement(rows).as_str());
    s.append(INSERT_ITEMS_TAIL);
    s
}

/// The values bound to the insert statement of `menu_item_ids` for a table.
pub fn insert_params(table_id: i32, menu_item_ids: &Vec<i32>, prep_time_minutes: i32) -> (r: Vec<i32>)
    ensures
        r@ == insert_param_seq(table_id, menu_item_ids@, prep_time_minutes),
{
    let mut params: Vec<i32> = Vec::new();
    let mut i: usize = 0;
    while i < menu_item_ids.len()
        invariant
            i <= menu_item_ids@.len(),
            params@ == insert_param_seq(table_id, menu_item_ids@.take(i as int), prep_time_minutes),
        decreases menu_item_ids@.len() - i,
    {
        params.push(table_id);
        params.push(menu_item_ids[i]);
        params.push(prep_time_minutes);
        assert(menu_item_ids@.take(i + 1).drop_last() =~= menu_item_ids@.take(i as int));
        i = i + 1;
    }
    assert(menu_item_ids@.take(i as int) =~= menu_item_ids@);
    params
}

} // verus!
