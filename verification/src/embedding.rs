//! The embedding client's policies: how much text is sent, which shapes of
//! answer are understood, how an answer is brought to the fixed dimension, and
//! when a cached vector stands in for a request.
//!
//! The numbers of a vector are carried, never computed with: the element type
//! is a parameter.

use crate::error::AppError;
use crate::text::{from_chars, to_chars};
use std::borrow::Cow;
use vstd::prelude::*;
use vstd::string::StringExecFns;

verus! {

/// The dimension of every embedding that the library hands out.
pub const EMBEDDING_DIM: usize = 768;

/// `s`, cut after `max_chars` characters where it is longer.
pub open spec fn truncated(s: Seq<char>, max_chars: usize) -> Seq<char> {
    if s.len() <= max_chars {
        s
    } else {
        s.take(max_chars as int)
    }
}

/// The text that is sent for embedding: `input`, cut after `max_chars`
/// characters where it is longer; borrowed where nothing was cut.
pub fn truncate_for_embedding<'a>(input: &'a str, max_chars: usize) -> (out: Cow<'a, str>)
    ensures
        out@ == truncated(input@, max_chars),
        input@.len() <= max_chars <==> out is Borrowed,
{
    let chars: Vec<char> = to_chars(input);
    if chars.len() <= max_chars {
        return Cow::Borrowed(input);
    }
    assert(chars@.subrange(0, max_chars as int) == chars@.take(max_chars as int));
    Cow::Owned(from_chars(&chars, 0, max_chars))
}

/// `values` brought to the dimension: cut where longer, filled up with
/// `zero` where shorter.
pub open spec fn normalized<T>(values: Seq<T>, zero: T) -> Seq<T> {
    Seq::new(
        EMBEDDING_DIM as nat,
        |i: int|
            if i < values.len() {
                values[i]
            } else {
                zero
            },
    )
}

/// Brings a vector to the dimension `EMBEDDING_DIM`: a longer one is cut, a
/// shorter one is filled up with `zero`, one of the right length is returned
/// as it is.
pub fn normalize_embedding<T: Copy>(values: Vec<T>, zero: T) -> (out: Vec<T>)
    ensures
        out@ == normalized(values@, zero),
        out@.len() == EMBEDDING_DIM,
        values@.len() == EMBEDDING_DIM ==> out@ == values@,
{
    let mut out: Vec<T> = values;
    if out.len() == EMBEDDING_DIM {
        return out;
    }
    if out.len() > EMBEDDING_DIM {
        out.truncate(EMBEDDING_DIM);
    } else {
        while out.len() < EMBEDDING_DIM
            invariant
                values@.len() <= out@.len() <= EMBEDDING_DIM,
                out@.subrange(0, values@.len() as int) == values@,
                forall|i: int| values@.len() <= i < out@.len() ==> out@[i] == zero,
            decreases EMBEDDING_DIM - out.len(),
        {
            let ghost before = out@;
            out.push(zero);
            assert(out@.subrange(0, values@.len() as int) == before.subrange(
                0,
                values@.len() as int,
            ));
        }
        assert forall|i: int| 0 <= i < values@.len() implies out@[i] == values@[i] by {
            assert(out@.subrange(0, values@.len() as int)[i] == out@[i]);
        }
    }
    out
}

/// A cached vector is used only where it has the dimension.
pub open spec fn cache_hit<T>(cached: Option<Vec<T>>) -> bool {
    cached matches Some(values) && values@.len() == EMBEDDING_DIM
}

/// The vector that stands in for a request: the cached one, where there is
/// one of the right dimension. `None` asks for the request to be made.
pub fn cached_embedding<T>(cached: Option<Vec<T>>) -> (r: Option<Vec<T>>)
    ensures
        cache_hit(cached) ==> r == cached,
        !cache_hit(cached) ==> r is None,
{
    match cached {
        Some(values) => {
            if values.len() == EMBEDDING_DIM {
                Some(values)
            } else {
                None
            }
        },
        None => None,
    }
}

/// The name of the cache entry of content: its hash, followed by `.json`.
pub fn cache_file_name(content_sha: &str) -> (name: String)
    ensures
        name@ == content_sha@ + ".json"@,
{
    let mut name = String::new();
    name.append(content_sha);
    name.append(".json");
    name
}

/// A vector that was computed and written to the cache is a hit when the same
/// content comes again, and the hit returns that very vector: every computed
/// vector has the dimension, so the second time no request is asked for.
pub proof fn lemma_computed_embedding_is_a_hit<T>(computed: Vec<T>, values: Seq<T>, zero: T)
    requires
        computed@ == normalized(values, zero),
    ensures
        cache_hit(Some(computed)),
{
}

/// One value of a row of the service's answer.
#[derive(Clone, Debug, PartialEq)]
pub enum JsonCell<T> {
    /// A number.
    Number(T),
    /// Anything else.
    Other,
}

/// One item of the list that the service answered with.
#[derive(Clone, Debug, PartialEq)]
pub enum JsonItem<T> {
    /// A number: the answer is one vector.
    Number(T),
    /// A list: the answer is one vector per token.
    Row(Vec<JsonCell<T>>),
    /// Anything else.
    Other,
}

/// The service's answer to an embedding request, as far as it is read.
#[derive(Clone, Debug, PartialEq)]
pub enum EmbeddingReply<T> {
    /// A list.
    Items(Vec<JsonItem<T>>),
    /// An object whose `error` field holds this text.
    Error(String),
    /// Anything else.
    Other,
}

/// An answer that was understood.
#[derive(Clone, Debug, PartialEq)]
pub enum EmbeddingShape<T> {
    /// One vector, used as it is.
    Flat(Vec<T>),
    /// One vector per token. `columns[j]` holds, in the order of the rows,
    /// the numbers at position `j` of the rows that reach so far; the
    /// embedding's number at `j` is their sum divided by `rows`.
    Pooled { columns: Vec<Vec<T>>, rows: usize },
}

/// Every value of the row is a number.
pub open spec fn all_numbers<T>(cells: Seq<JsonCell<T>>) -> bool {
    forall|k: int| 0 <= k < cells.len() ==> cells[k] is Number
}

/// Every item is a number.
pub open spec fn all_plain<T>(items: Seq<JsonItem<T>>) -> bool {
    forall|i: int| 0 <= i < items.len() ==> items[i] is Number
}

/// What is wrong with the first item that is no row of numbers, if any is.
pub open spec fn rows_flaw<T>(items: Seq<JsonItem<T>>) -> Option<Seq<char>>
    decreases items.len(),
{
    if items.len() == 0 {
        None
    } else {
        match items.first() {
            JsonItem::Row(cells) => if all_numbers(cells@) {
                rows_flaw(items.drop_first())
            } else {
                Some("invalid embedding value"@)
            },
            _ => Some("invalid embedding row"@),
        }
    }
}

/// Why the answer gives no embedding, if it gives none.
///
/// A list must not be empty; its first item decides whether numbers or rows
/// of numbers are expected of all items. An object with an error text fails
/// with that text; nothing else is understood.
pub open spec fn reply_flaw<T>(reply: EmbeddingReply<T>) -> Option<Seq<char>> {
    match reply {
        EmbeddingReply::Items(items) => if items@.len() == 0 {
            Some("empty embedding response"@)
        } else {
            match items@[0] {
                JsonItem::Number(_) => if all_plain(items@) {
                    None
                } else {
                    Some("invalid embedding value"@)
                },
                JsonItem::Row(_) => rows_flaw(items@),
                JsonItem::Other => Some("unsupported embedding response format"@),
            }
        },
        EmbeddingReply::Error(text) => Some(text@),
        EmbeddingReply::Other => Some("unexpected embedding response"@),
    }
}

/// The numbers of a list of numbers.
pub open spec fn plain_numbers<T>(items: Seq<JsonItem<T>>) -> Seq<T> {
    Seq::new(items.len(), |i: int| items[i]->Number_0)
}

/// The length of the first row that is not empty; 0 where every row is empty.
pub open spec fn pooled_width<T>(items: Seq<JsonItem<T>>) -> nat
    decreases items.len(),
{
    if items.len() == 0 {
        0
    } else {
        match items.first() {
            JsonItem::Row(cells) if cells@.len() > 0 => cells@.len(),
            _ => pooled_width(items.drop_first()),
        }
    }
}

/// The number at position `j` of a row, where the row reaches so far.
pub open spec fn cell_at<T>(item: JsonItem<T>, j: int) -> Seq<T> {
    match item {
        JsonItem::Row(cells) => if 0 <= j < cells@.len() {
            match cells@[j] {
                JsonCell::Number(x) => seq![x],
                JsonCell::Other => Seq::empty(),
            }
        } else {
            Seq::empty()
        },
        _ => Seq::empty(),
    }
}

/// The numbers at position `j` of the rows that reach so far, in order.
pub open spec fn column<T>(items: Seq<JsonItem<T>>, j: int) -> Seq<T>
    decreases items.len(),
{
    if items.len() == 0 {
        Seq::empty()
    } else {
        column(items.drop_last(), j) + cell_at(items.last(), j)
    }
}

impl<T> EmbeddingShape<T> {
    /// The shape is what the flawless answer `reply` holds.
    pub open spec fn holds(&self, reply: EmbeddingReply<T>) -> bool {
        reply matches EmbeddingReply::Items(items) && items@.len() > 0 && match items@[0] {
            JsonItem::Number(_) => self matches EmbeddingShape::Flat(values) && values@
                == plain_numbers(items@),
            _ => self matches EmbeddingShape::Pooled { columns, rows } && rows == items@.len()
                && columns@.len() == pooled_width(items@) && forall|j: int|
                0 <= j < columns@.len() ==> (#[trigger] columns@[j])@ == column(items@, j),
        }
    }
}

fn failure<T>(message: &str) -> (r: Result<EmbeddingShape<T>, AppError>)
    ensures
        r matches Err(AppError::HuggingFace(detail)) && detail@ == message@,
{
    Err(AppError::HuggingFace(message.to_owned()))
}

fn check_row<T>(cells: &Vec<JsonCell<T>>) -> (r: bool)
    ensures
        r == all_numbers(cells@),
{
    let n: usize = cells.len();
    let mut k: usize = 0;
    while k < n
        invariant
            k <= n == cells.len(),
            forall|i: int| 0 <= i < k ==> cells@[i] is Number,
        decreases n - k,
    {
        match &cells[k] {
            JsonCell::Number(_) => {},
            JsonCell::Other => {
                return false;
            },
        }
        k += 1;
    }
    true
}

/// All items are rows of numbers.
pub open spec fn all_rows<T>(items: Seq<JsonItem<T>>) -> bool {
    forall|i: int|
        0 <= i < items.len() ==> (#[trigger] items[i] matches JsonItem::Row(cells) && all_numbers(
            cells@,
        ))
}

proof fn lemma_rows_flaw_none<T>(items: Seq<JsonItem<T>>)
    requires
        all_rows(items),
    ensures
        rows_flaw(items) is None,
    decreases items.len(),
{
    if items.len() > 0 {
        assert(items[0] is Row);
        assert forall|i: int| 0 <= i < items.drop_first().len() implies (
        #[trigger] items.drop_first()[i] matches JsonItem::Row(cells) && all_numbers(cells@)) by {
            assert(items.drop_first()[i] == items[i + 1]);
        }
        lemma_rows_flaw_none(items.drop_first());
    }
}

fn gather_column<T: Copy>(items: &Vec<JsonItem<T>>, j: usize) -> (col: Vec<T>)
    ensures
        col@ == column(items@, j as int),
{
    let n: usize = items.len();
    let mut col: Vec<T> = Vec::new();
    let mut i: usize = 0;
    while i < n
        invariant
            i <= n == items.len(),
            col@ == column(items@.take(i as int), j as int),
        decreases n - i,
    {
        assert(items@.take(i + 1).drop_last() == items@.take(i as int));
        assert(items@.take(i + 1).last() == items@[i as int]);
        let ghost before = col@;
        match &items[i] {
            JsonItem::Row(cells) => {
                if j < cells.len() {
                    match &cells[j] {
                        JsonCell::Number(x) => {
                            col.push(*x);
                            assert(col@ == before + seq![*x]);
                        },
                        JsonCell::Other => {
                            assert(before + Seq::<T>::empty() == before);
                        },
                    }
                } else {
                    assert(before + Seq::<T>::empty() == before);
                }
            },
            _ => {
                assert(before + Seq::<T>::empty() == before);
            },
        }
        i += 1;
    }
    assert(items@.take(n as int) == items@);
    col
}

/// Reads the service's answer to an embedding request.
///
/// A list of numbers is the embedding itself. A list of rows of numbers is
/// handed out by columns, for the mean over the rows to be taken. Every other
/// answer is an error of the inference service, with the text that `reply_flaw`
/// gives.
#[verifier::loop_isolation(false)]
pub fn parse_hf_embedding<T: Copy>(reply: &EmbeddingReply<T>) -> (r: Result<
    EmbeddingShape<T>,
    AppError,
>)
    ensures
        match reply_flaw(*reply) {
            Some(message) => r matches Err(AppError::HuggingFace(detail)) && detail@ == message,
            None => r matches Ok(shape) && shape.holds(*reply),
        },
{
    let items: &Vec<JsonItem<T>> = match reply {
        EmbeddingReply::Items(items) => items,
        EmbeddingReply::Error(text) => {
            return Err(AppError::HuggingFace(text.clone()));
        },
        EmbeddingReply::Other => {
            return failure("unexpected embedding response");
        },
    };
    let n: usize = items.len();
    if n == 0 {
        return failure("empty embedding response");
    }
    match &items[0] {
        JsonItem::Number(_) => {
            let mut values: Vec<T> = Vec::new();
            let mut i: usize = 0;
            while i < n
                invariant
                    i <= n == items.len(),
                    values@.len() == i,
                    forall|k: int| 0 <= k < i ==> items@[k] is Number,
                    forall|k: int| 0 <= k < i ==> values@[k] == items@[k]->Number_0,
                decreases n - i,
            {
                match &items[i] {
                    JsonItem::Number(x) => {
                        values.push(*x);
                    },
                    _ => {
                        return failure("invalid embedding value");
                    },
                }
                i += 1;
            }
            assert(values@ == plain_numbers(items@));
            Ok(EmbeddingShape::Flat(values))
        },
        JsonItem::Row(_) => {
            let mut width: usize = 0;
            let mut i: usize = 0;
            assert(items@.skip(0) == items@);
            while i < n
                invariant
                    i <= n == items.len(),
                    rows_flaw(items@) == rows_flaw(items@.skip(i as int)),
                    forall|k: int|
                        0 <= k < i ==> (#[trigger] items@[k] matches JsonItem::Row(cells)
                            && all_numbers(cells@)),
                    if width == 0 {
                        pooled_width(items@) == pooled_width(items@.skip(i as int))
                    } else {
                        pooled_width(items@) == width
                    },
                decreases n - i,
            {
                assert(items@.skip(i as int).first() == items@[i as int]);
                assert(items@.skip(i as int).drop_first() == items@.skip(i + 1));
                match &items[i] {
                    JsonItem::Row(cells) => {
                        if !check_row(cells) {
                            return failure("invalid embedding value");
                        }
                        if width == 0 {
                            width = cells.len();
                        }
                    },
                    _ => {
                        return failure("invalid embedding row");
                    },
                }
                i += 1;
            }
            proof {
                assert(all_rows(items@));
                lemma_rows_flaw_none(items@);
                assert(items@.skip(n as int).len() == 0);
            }
            let mut columns: Vec<Vec<T>> = Vec::new();
            let mut j: usize = 0;
            while j < width
                invariant
                    j <= width,
                    columns@.len() == j,
                    forall|c: int| 0 <= c < j ==> (#[trigger] columns@[c])@ == column(items@, c),
                decreases width - j,
            {
                let col: Vec<T> = gather_column(items, j);
                columns.push(col);
                j += 1;
            }
            Ok(EmbeddingShape::Pooled { columns, rows: n })
        },
        JsonItem::Other => failure("unsupported embedding response format"),
    }
}

} // verus!
