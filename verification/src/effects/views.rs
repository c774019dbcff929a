//! Queries that look at a stack without changing it: the top item, listings
//! of all, the newest or the oldest items, the item count, and emptiness.
//!
//! A query never reads the store itself. Its caller loads the named stack and
//! hands over the snapshot, oldest item first; the query answers with the
//! table to show, if any.

use crate::data::{created_at, item_at, snapshot, Item, ItemView, LoadFailure};
use crate::effects::{EffectNames, EffectNamesView, Termination};
use crate::output::{
    decimal, decimal_string, position_label, position_string, texts, OutputFormat, Table, TableView,
};
use vstd::prelude::*;
use vstd::string::*;

verus! {

// ===== Peek =====
/// Shows the item on top of a stack.
#[derive(Clone, Debug, PartialEq, Eq)]
pub struct Peek {
    pub stack: String,
}

impl Peek {
    /// The names under which this query is called.
    pub fn names() -> (names: EffectNames<'static>)
        ensures
            names@ == (EffectNamesView {
                name: "peek"@,
                description: "Show the current item"@,
                aliases: seq!["show"@],
            }),
    {
        let names = EffectNames {
            name: "peek",
            description: "Show the current item",
            aliases: &["show"],
        };
        assert(names@.aliases =~= seq!["show"@]);
        names
    }

    /// Shows the top of the stack in `loaded`: one row, "Now" and the
    /// contents of the newest item, in every output mode. Nothing is shown
    /// where the stack has no items or failed to load.
    pub fn run(&self, loaded: Result<Vec<Item>, LoadFailure>) -> (shown: Option<Table>)
        ensures
            shown is Some <==> loaded is Ok && loaded->Ok_0@.len() > 0,
            shown is Some ==> shown->0@ == (TableView {
                headers: seq!["position"@, "item"@],
                rows: seq![seq!["Now"@, item_at(snapshot(loaded->Ok_0@), 0).contents]],
            }),
    {
        match loaded {
            Ok(items) => {
                let len: usize = items.len();
                if len == 0 {
                    None
                } else {
                    let headers: Vec<String> = vec![
                        String::from_str("position"),
                        String::from_str("item"),
                    ];
                    let row: Vec<String> = vec![
                        String::from_str("Now"),
                        items[len - 1].contents.clone(),
                    ];
                    let rows: Vec<Vec<String>> = vec![row];
                    let table = Table { headers, rows };
                    assert(table@.headers =~= seq!["position"@, "item"@]);
                    assert(table@.rows[0] =~= seq![
                        "Now"@,
                        item_at(snapshot(items@), 0).contents,
                    ]);
                    assert(table@.rows =~= seq![
                        seq!["Now"@, item_at(snapshot(items@), 0).contents],
                    ]);
                    Some(table)
                }
            },
            Err(_) => None,
        }
    }
}

// ===== Which items a listing shows =====
/// A window onto a stack seen top first.
///
/// `limit` is the number of items asked for; without one, all are. With
/// `from_end` the window ends at the oldest item and `start` is ignored;
/// otherwise it begins `start` items below the top.
#[derive(Clone, Copy, Debug)]
pub struct ListRange<'a> {
    pub stack: &'a str,
    pub start: usize,
    pub limit: Option<usize>,
    pub from_end: bool,
}

/// The mathematical value of a [`ListRange`].
pub ghost struct RangeView {
    pub stack: Seq<char>,
    pub start: nat,
    pub limit: Option<nat>,
    pub from_end: bool,
}

impl<'a> View for ListRange<'a> {
    type V = RangeView;

    open spec fn view(&self) -> RangeView {
        RangeView {
            stack: self.stack@,
            start: self.start as nat,
            limit: match self.limit {
                Some(n) => Some(n as nat),
                None => None,
            },
            from_end: self.from_end,
        }
    }
}

/// How many items the range asks for, on a stack of `len` items.
pub open spec fn limit_of(range: RangeView, len: nat) -> nat {
    match range.limit {
        Some(n) => n,
        None => len,
    }
}

/// How many items, counted from the top, the range passes over.
pub open spec fn skip_of(range: RangeView, len: nat) -> nat {
    if range.from_end {
        if limit_of(range, len) <= len {
            (len - limit_of(range, len)) as nat
        } else {
            0
        }
    } else {
        range.start
    }
}

/// Whether the item at display position `position` is in the window.
pub open spec fn is_shown(range: RangeView, len: nat, position: int) -> bool {
    &&& 0 <= position < len
    &&& skip_of(range, len) <= position < skip_of(range, len) + limit_of(range, len)
}

/// The display position of the first item shown (`len` where none is).
pub open spec fn first_shown(range: RangeView, len: nat) -> nat {
    if skip_of(range, len) < len {
        skip_of(range, len)
    } else {
        len
    }
}

/// The number of items shown.
pub open spec fn shown_count(range: RangeView, len: nat) -> nat {
    if skip_of(range, len) >= len {
        0
    } else if limit_of(range, len) <= len - skip_of(range, len) {
        limit_of(range, len)
    } else {
        (len - skip_of(range, len)) as nat
    }
}

/// The items shown are those at the positions from `first_shown` on,
/// `shown_count` of them, with none left out in between.
pub proof fn shown_positions_are_contiguous(range: RangeView, len: nat, position: int)
    ensures
        is_shown(range, len, position) <==> first_shown(range, len) <= position < first_shown(
            range,
            len,
        ) + shown_count(range, len),
        first_shown(range, len) + shown_count(range, len) <= len,
{
}

/// Computes the window of a range on a stack of `len` items: the position of
/// the first item shown, and the number of items shown.
pub fn window(range: &ListRange, len: usize) -> (w: (usize, usize))
    ensures
        w.0 == first_shown(range@, len as nat),
        w.1 == shown_count(range@, len as nat),
{
    let limit: usize = match range.limit {
        Some(n) => n,
        None => len,
    };
    let skip: usize = if range.from_end {
        if limit <= len {
            len - limit
        } else {
            0
        }
    } else {
        range.start
    };
    if skip >= len {
        (len, 0)
    } else if limit <= len - skip {
        (skip, limit)
    } else {
        (skip, len - skip)
    }
}

// ===== How a shown item is rendered =====
/// Whether `label` says when an item with this history was created: what
/// `format_time` makes of the creation moment, or "unknown" where the history
/// records no creation.
pub open spec fn is_created_label<F: Fn(i64) -> String>(
    format_time: F,
    history: Seq<(Seq<char>, i64)>,
    label: String,
) -> bool {
    match created_at(history) {
        Some(moment) => format_time.ensures((moment,), label),
        None => label@ == "unknown"@,
    }
}

/// Whether `row` is the row of `item` at display position `position`: the
/// position's label, the item's contents, and when it was created.
pub open spec fn is_row<F: Fn(i64) -> String>(
    output: OutputFormat,
    position: nat,
    item: ItemView,
    format_time: F,
    row: Seq<String>,
) -> bool {
    &&& row.len() == 3
    &&& row[0]@ == position_label(output, position)
    &&& row[1]@ == item.contents
    &&& is_created_label(format_time, item.history, row[2])
}

/// Whether `format_time` accepts the creation moment of an item with this
/// history, if it has one.
pub open spec fn can_format<F: Fn(i64) -> String>(
    format_time: F,
    history: Seq<(Seq<char>, i64)>,
) -> bool {
    match created_at(history) {
        Some(moment) => format_time.requires((moment,)),
        None => true,
    }
}

/// Renders the row of one item.
pub fn render_row<F: Fn(i64) -> String>(
    output: OutputFormat,
    position: usize,
    item: &Item,
    format_time: &F,
) -> (row: Vec<String>)
    requires
        can_format(*format_time, item@.history),
    ensures
        is_row(output, position as nat, item@, *format_time, row@),
{
    let label: String = position_string(output, position);
    let created: String = match item.created() {
        Some(moment) => format_time(moment),
        None => String::from_str("unknown"),
    };
    vec![label, item.contents.clone(), created]
}

// ===== Listings =====
/// Whether `table` lists the window `range` of the stack `items` (oldest
/// first): a row for each item shown and for no other, the item nearest the
/// top first, each under the position it has in the whole stack.
pub open spec fn is_listing<F: Fn(i64) -> String>(
    range: RangeView,
    output: OutputFormat,
    items: Seq<ItemView>,
    format_time: F,
    table: Table,
) -> bool {
    &&& texts(table.headers@) == seq!["position"@, "item"@, "created"@]
    &&& table.rows@.len() == shown_count(range, items.len())
    &&& forall|k: int|
        0 <= k < table.rows@.len() ==> is_row(
            output,
            (first_shown(range, items.len()) + k) as nat,
            item_at(items, first_shown(range, items.len()) + k),
            format_time,
            #[trigger] table.rows@[k]@,
        )
}

/// Whether `format_time` accepts the creation moment of every item that the
/// window shows.
pub open spec fn can_format_shown<F: Fn(i64) -> String>(
    format_time: F,
    range: RangeView,
    items: Seq<ItemView>,
) -> bool {
    forall|position: int| #[trigger]
        is_shown(range, items.len(), position) ==> can_format(
            format_time,
            item_at(items, position).history,
        )
}

/// Whether a listing is shown at all: not in silent mode, and not where the
/// stack could not be loaded.
pub open spec fn listing_is_shown(
    output: OutputFormat,
    loaded: Result<Vec<Item>, LoadFailure>,
) -> bool {
    output != OutputFormat::Silent && loaded is Ok
}

/// The name of the stack that a listing has to be given, if any: in silent
/// mode a listing reads nothing.
pub open spec fn stack_needed(range: RangeView, output: OutputFormat) -> Option<Seq<char>> {
    if output == OutputFormat::Silent {
        None
    } else {
        Some(range.stack)
    }
}

/// Tells which stack to load before `list_range` is called, if any.
pub fn stack_to_load<'a>(range: &ListRange<'a>, output: OutputFormat) -> (name: Option<&'a str>)
    ensures
        match name {
            Some(name) => stack_needed(range@, output) == Some(name@),
            None => stack_needed(range@, output) is None,
        },
{
    match output {
        OutputFormat::Silent => None,
        _ => Some(range.stack),
    }
}

/// Lists the window `range` of the stack in `loaded`.
///
/// Nothing is shown in silent mode, nor where the stack failed to load.
/// Otherwise the table holds the columns "position", "item" and "created" and
/// a row for each item in the window, top first; a stack without items gives
/// a table without rows.
pub fn list_range<F: Fn(i64) -> String>(
    range: &ListRange,
    output: OutputFormat,
    loaded: Result<Vec<Item>, LoadFailure>,
    format_time: F,
) -> (shown: Option<Table>)
    requires
        listing_is_shown(output, loaded) ==> can_format_shown(
            format_time,
            range@,
            snapshot(loaded->Ok_0@),
        ),
    ensures
        shown is Some <==> listing_is_shown(output, loaded),
        shown is Some ==> is_listing(range@, output, snapshot(loaded->Ok_0@), format_time, shown->0),
{
    if let OutputFormat::Silent = output {
        return None;
    }
    match loaded {
        Ok(items) => {
            let len: usize = items.len();
            let (first, count) = window(range, len);
            let ghost stack = snapshot(items@);
            let mut rows: Vec<Vec<String>> = Vec::new();
            let mut k: usize = 0;
            while k < count
                invariant
                    k <= count,
                    len == items@.len(),
                    stack == snapshot(items@),
                    first == first_shown(range@, len as nat),
                    count == shown_count(range@, len as nat),
                    first + count <= len,
                    can_format_shown(format_time, range@, stack),
                    rows@.len() == k,
                    forall|j: int|
                        0 <= j < k ==> is_row(
                            output,
                            (first + j) as nat,
                            item_at(stack, first + j),
                            format_time,
                            #[trigger] rows@[j]@,
                        ),
                decreases count - k,
            {
                let position: usize = first + k;
                let item = &items[len - 1 - position];
                proof {
                    shown_positions_are_contiguous(range@, len as nat, position as int);
                    assert(is_shown(range@, stack.len(), position as int));
                    assert(item@ == item_at(stack, position as int));
                }
                let row: Vec<String> = render_row(output, position, item, &format_time);
                rows.push(row);
                k += 1;
            }
            let headers: Vec<String> = vec![
                String::from_str("position"),
                String::from_str("item"),
                String::from_str("created"),
            ];
            assert(texts(headers@) =~= seq!["position"@, "item"@, "created"@]);
            Some(Table { headers, rows })
        },
        Err(_) => None,
    }
}

// ===== ListAll =====
/// Lists every item of a stack.
#[derive(Clone, Debug, PartialEq, Eq)]
pub struct ListAll {
    pub stack: String,
}

impl ListAll {
    /// The window that this query asks for.
    pub open spec fn range_spec(&self) -> RangeView {
        RangeView { stack: self.stack@, start: 0, limit: None, from_end: false }
    }

    /// The window that this query asks for.
    pub fn range<'a>(&'a self) -> (range: ListRange<'a>)
        ensures
            range@ == self.range_spec(),
    {
        ListRange { stack: self.stack.as_str(), start: 0, limit: None, from_end: false }
    }

    /// The names under which this query is called.
    pub fn names() -> (names: EffectNames<'static>)
        ensures
            names@ == (EffectNamesView {
                name: "list"@,
                description: "List all items"@,
                aliases: seq!["ls"@, "snoop"@, "show"@, "all"@],
            }),
    {
        let names = EffectNames {
            name: "list",
            description: "List all items",
            aliases: &["ls", "snoop", "show", "all"],
        };
        assert(names@.aliases =~= seq!["ls"@, "snoop"@, "show"@, "all"@]);
        names
    }

    /// Lists the whole stack in `loaded`, top first.
    pub fn run<F: Fn(i64) -> String>(
        &self,
        output: OutputFormat,
        loaded: Result<Vec<Item>, LoadFailure>,
        format_time: F,
    ) -> (shown: Option<Table>)
        requires
            listing_is_shown(output, loaded) ==> can_format_shown(
                format_time,
                self.range_spec(),
                snapshot(loaded->Ok_0@),
            ),
        ensures
            shown is Some <==> listing_is_shown(output, loaded),
            shown is Some ==> is_listing(
                self.range_spec(),
                output,
                snapshot(loaded->Ok_0@),
                format_time,
                shown->0,
            ),
    {
        list_range(&self.range(), output, loaded, format_time)
    }
}

// ===== Head =====
/// The number of items that [`Head`] lists where none is given.
pub const HEAD_DEFAULT_LIMIT: usize = 10;

/// Lists the `n` items nearest the top of a stack.
#[derive(Clone, Debug, PartialEq, Eq)]
pub struct Head {
    pub stack: String,
    pub n: Option<usize>,
}

impl Head {
    /// The window that this query asks for.
    pub open spec fn range_spec(&self) -> RangeView {
        RangeView {
            stack: self.stack@,
            start: 0,
            limit: Some(self.limit_spec()),
            from_end: false,
        }
    }

    /// The window that this query asks for.
    pub fn range<'a>(&'a self) -> (range: ListRange<'a>)
        ensures
            range@ == self.range_spec(),
    {
        ListRange {
            stack: self.stack.as_str(),
            start: 0,
            limit: Some(self.n.unwrap_or(HEAD_DEFAULT_LIMIT)),
            from_end: false,
        }
    }

    /// The number of items asked for.
    pub open spec fn limit_spec(&self) -> nat {
        match self.n {
            Some(n) => n as nat,
            None => HEAD_DEFAULT_LIMIT as nat,
        }
    }

    /// The names under which this query is called.
    pub fn names() -> (names: EffectNames<'static>)
        ensures
            names@ == (EffectNamesView {
                name: "head"@,
                description: "List the first N items"@,
                aliases: seq!["top"@, "first"@],
            }),
    {
        let names = EffectNames {
            name: "head",
            description: "List the first N items",
            aliases: &["top", "first"],
        };
        assert(names@.aliases =~= seq!["top"@, "first"@]);
        names
    }

    /// Lists the newest items of the stack in `loaded`, top first.
    pub fn run<F: Fn(i64) -> String>(
        &self,
        output: OutputFormat,
        loaded: Result<Vec<Item>, LoadFailure>,
        format_time: F,
    ) -> (shown: Option<Table>)
        requires
            listing_is_shown(output, loaded) ==> can_format_shown(
                format_time,
                self.range_spec(),
                snapshot(loaded->Ok_0@),
            ),
        ensures
            shown is Some <==> listing_is_shown(output, loaded),
            shown is Some ==> is_listing(
                self.range_spec(),
                output,
                snapshot(loaded->Ok_0@),
                format_time,
                shown->0,
            ),
    {
        list_range(&self.range(), output, loaded, format_time)
    }
}

// ===== Tail =====
/// The number of items that [`Tail`] lists where none is given.
pub const TAIL_DEFAULT_LIMIT: usize = 10;

/// Lists the `n` oldest items of a stack.
#[derive(Clone, Debug, PartialEq, Eq)]
pub struct Tail {
    pub stack: String,
    pub n: Option<usize>,
}

impl Tail {
    /// The window that this query asks for.
    pub open spec fn range_spec(&self) -> RangeView {
        RangeView {
            stack: self.stack@,
            start: 0,
            limit: Some(self.limit_spec()),
            from_end: true,
        }
    }

    /// The window that this query asks for.
    pub fn range<'a>(&'a self) -> (range: ListRange<'a>)
        ensures
            range@ == self.range_spec(),
    {
        ListRange {
            stack: self.stack.as_str(),
            start: 0,
            limit: Some(self.n.unwrap_or(TAIL_DEFAULT_LIMIT)),
            from_end: true,
        }
    }

    /// The number of items asked for.
    pub open spec fn limit_spec(&self) -> nat {
        match self.n {
            Some(n) => n as nat,
            None => TAIL_DEFAULT_LIMIT as nat,
        }
    }

    /// The names under which this query is called.
    pub fn names() -> (names: EffectNames<'static>)
        ensures
            names@ == (EffectNamesView {
                name: "tail"@,
                description: "List the last N items"@,
                aliases: seq!["bottom"@, "last"@],
            }),
    {
        let names = EffectNames {
            name: "tail",
            description: "List the last N items",
            aliases: &["bottom", "last"],
        };
        assert(names@.aliases =~= seq!["bottom"@, "last"@]);
        names
    }

    /// Lists the oldest items of the stack in `loaded`, the newest of them
    /// first.
    pub fn run<F: Fn(i64) -> String>(
        &self,
        output: OutputFormat,
        loaded: Result<Vec<Item>, LoadFailure>,
        format_time: F,
    ) -> (shown: Option<Table>)
        requires
            listing_is_shown(output, loaded) ==> can_format_shown(
                format_time,
                self.range_spec(),
                snapshot(loaded->Ok_0@),
            ),
        ensures
            shown is Some <==> listing_is_shown(output, loaded),
            shown is Some ==> is_listing(
                self.range_spec(),
                output,
                snapshot(loaded->Ok_0@),
                format_time,
                shown->0,
            ),
    {
        list_range(&self.range(), output, loaded, format_time)
    }
}

// ===== Count =====
/// Shows how many items a stack holds.
#[derive(Clone, Debug, PartialEq, Eq)]
pub struct Count {
    pub stack: String,
}

impl Count {
    /// The names under which this query is called.
    pub fn names() -> (names: EffectNames<'static>)
        ensures
            names@ == (EffectNamesView {
                name: "count"@,
                description: "Print the total number of items in the stack"@,
                aliases: seq!["size"@, "length"@],
            }),
    {
        let names = EffectNames {
            name: "count",
            description: "Print the total number of items in the stack",
            aliases: &["size", "length"],
        };
        assert(names@.aliases =~= seq!["size"@, "length"@]);
        names
    }

    /// Shows the number of items of the stack in `loaded`, as a decimal
    /// numeral in a single row, in every output mode. Nothing is shown where
    /// the stack failed to load.
    pub fn run(&self, loaded: Result<Vec<Item>, LoadFailure>) -> (shown: Option<Table>)
        ensures
            shown is Some <==> loaded is Ok,
            shown is Some ==> shown->0@ == (TableView {
                headers: seq!["items"@],
                rows: seq![seq![decimal(loaded->Ok_0@.len())]],
            }),
    {
        match loaded {
            Ok(items) => {
                let headers: Vec<String> = vec![String::from_str("items")];
                let row: Vec<String> = vec![decimal_string(items.len())];
                let rows: Vec<Vec<String>> = vec![row];
                let table = Table { headers, rows };
                assert(table@.headers =~= seq!["items"@]);
                assert(table@.rows[0] =~= seq![decimal(items@.len())]);
                assert(table@.rows =~= seq![seq![decimal(items@.len())]]);
                Some(table)
            },
            Err(_) => None,
        }
    }
}

// ===== IsEmpty =====
/// Tells whether a stack is empty, in what it shows and in how it ends.
#[derive(Clone, Debug, PartialEq, Eq)]
pub struct IsEmpty {
    pub stack: String,
}

/// Whether a load result counts as an empty stack: one that holds no items,
/// and also one that could not be loaded.
pub open spec fn counts_as_empty(loaded: Result<Vec<Item>, LoadFailure>) -> bool {
    match loaded {
        Ok(items) => items@.len() == 0,
        Err(_) => true,
    }
}

impl IsEmpty {
    /// The names under which this query is called.
    pub fn names() -> (names: EffectNames<'static>)
        ensures
            names@ == (EffectNamesView {
                name: "is-empty"@,
                description: "\"true\" if stack has zero items, \"false\" (and nonzero exit code) if the stack does have items"@,
                aliases: seq!["empty"@],
            }),
    {
        let names = EffectNames {
            name: "is-empty",
            description: "\"true\" if stack has zero items, \"false\" (and nonzero exit code) if the stack does have items",
            aliases: &["empty"],
        };
        assert(names@.aliases =~= seq!["empty"@]);
        names
    }

    /// Answers whether the stack in `loaded` is empty.
    ///
    /// The table holds the single value "true" or "false". A stack with
    /// items ends the process with status 1 once "false" is shown, so that a
    /// shell can loop until the stack is empty; an empty stack, and one that
    /// failed to load, returns normally.
    pub fn run(&self, loaded: Result<Vec<Item>, LoadFailure>) -> (answer: (Table, Termination))
        ensures
            answer.0@ == (TableView {
                headers: seq!["empty"@],
                rows: seq![seq![if counts_as_empty(loaded) { "true"@ } else { "false"@ }]],
            }),
            answer.1 == if counts_as_empty(loaded) {
                Termination::Normal
            } else {
                Termination::Exit(1)
            },
    {
        let empty: bool = match loaded {
            Ok(items) => items.len() == 0,
            Err(_) => true,
        };
        let headers: Vec<String> = vec![String::from_str("empty")];
        let value: String = if empty {
            String::from_str("true")
        } else {
            String::from_str("false")
        };
        let row: Vec<String> = vec![value];
        let rows: Vec<Vec<String>> = vec![row];
        let table = Table { headers, rows };
        assert(table@.headers =~= seq!["empty"@]);
        assert(table@.rows[0] =~= seq![if empty { "true"@ } else { "false"@ }]);
        assert(table@.rows =~= seq![seq![if empty { "true"@ } else { "false"@ }]]);
        if empty {
            (table, Termination::Normal)
        } else {
            (table, Termination::Exit(1))
        }
    }
}

// ===== What the listings show =====
/// A full listing has a row for every item of the stack: row `k` shows the
/// item `k` places below the top, under position `k`.
pub proof fn list_all_lists_everything<F: Fn(i64) -> String>(
    list: ListAll,
    output: OutputFormat,
    items: Seq<ItemView>,
    format_time: F,
    table: Table,
)
    requires
        is_listing(list.range_spec(), output, items, format_time, table),
    ensures
        table.rows@.len() == items.len(),
        forall|k: int|
            0 <= k < items.len() ==> is_row(
                output,
                k as nat,
                items[items.len() - 1 - k],
                format_time,
                #[trigger] table.rows@[k]@,
            ),
{
}

/// `Head` lists the newest items, as many as it asks for or, where the stack
/// holds fewer, all of them: row `k` shows the item `k` places below the
/// top, under position `k`.
pub proof fn head_lists_the_newest<F: Fn(i64) -> String>(
    head: Head,
    output: OutputFormat,
    items: Seq<ItemView>,
    format_time: F,
    table: Table,
)
    requires
        is_listing(head.range_spec(), output, items, format_time, table),
    ensures
        table.rows@.len() == if head.limit_spec() <= items.len() {
            head.limit_spec()
        } else {
            items.len()
        },
        forall|k: int|
            0 <= k < table.rows@.len() ==> is_row(
                output,
                k as nat,
                items[items.len() - 1 - k],
                format_time,
                #[trigger] table.rows@[k]@,
            ),
{
}

/// `Tail` lists the oldest items, as many as it asks for or, where the stack
/// holds fewer, all of them. The rows end with the oldest item of the stack,
/// and each item keeps the position that it has in the whole stack: with `n`
/// rows out of `len` items, row `k` shows position `len - n + k`.
pub proof fn tail_lists_the_oldest<F: Fn(i64) -> String>(
    tail: Tail,
    output: OutputFormat,
    items: Seq<ItemView>,
    format_time: F,
    table: Table,
)
    requires
        is_listing(tail.range_spec(), output, items, format_time, table),
    ensures
        table.rows@.len() == if tail.limit_spec() <= items.len() {
            tail.limit_spec()
        } else {
            items.len()
        },
        forall|k: int|
            0 <= k < table.rows@.len() ==> is_row(
                output,
                (items.len() - table.rows@.len() + k) as nat,
                items[table.rows@.len() - 1 - k],
                format_time,
                #[trigger] table.rows@[k]@,
            ),
{
}

/// In silent mode a listing neither asks for a stack nor shows anything,
/// whatever the range and whatever a load would have given.
pub proof fn silent_listing_is_idle(range: RangeView, loaded: Result<Vec<Item>, LoadFailure>)
    ensures
        stack_needed(range, OutputFormat::Silent) is None,
        !listing_is_shown(OutputFormat::Silent, loaded),
{
}

} // verus!
