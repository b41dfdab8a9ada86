use vstd::prelude::*;

verus! {

/// The page sizes that listing endpoints accept.
#[derive(Clone, Copy, Debug, Default, PartialEq, Eq, PartialOrd, Ord, Hash)]
pub enum Limit {
    #[default]
    Ten,
    TwentyFive,
    Fifty,
    Hundred,
}

impl Limit {
    /// The number of items a page of this size holds at most.
    pub open spec fn spec_to_u64(self) -> u64 {
        match self {
            Limit::Ten => 10,
            Limit::TwentyFive => 25,
            Limit::Fifty => 50,
            Limit::Hundred => 100,
        }
    }

    /// The page size as the number sent to the remote service.
    pub fn to_u64(&self) -> (r: u64)
        ensures
            r == self.spec_to_u64(),
    {
        match self {
            Limit::Ten => 10,
            Limit::TwentyFive => 25,
            Limit::Fifty => 50,
            Limit::Hundred => 100,
        }
    }

    /// The page size for a number; `None` for any number that is not an
    /// allowed size, so that such a request is refused before it is sent.
    pub fn from_u64(n: u64) -> (r: Option<Limit>)
        ensures
            r is Some <==> (n == 10 || n == 25 || n == 50 || n == 100),
            r matches Some(l) ==> l.spec_to_u64() == n,
    {
        match n {
            10 => Some(Limit::Ten),
            25 => Some(Limit::TwentyFive),
            50 => Some(Limit::Fifty),
            100 => Some(Limit::Hundred),
            _ => None,
        }
    }
}

/// One page of a cursor-based listing. `next_cursor` is `None` on the final
/// page only; an empty page may still have pages after it.
pub struct Page<T> {
    pub items: Vec<T>,
    /// The opaque token that fetches the next page, echoed back verbatim.
    pub next_cursor: Option<String>,
}

impl<T> Page<T> {
    /// Whether no page follows: decided by the cursor alone, never by how many
    /// items the page holds.
    pub fn is_final(&self) -> (r: bool)
        ensures
            r == (self.next_cursor is None),
    {
        self.next_cursor.is_none()
    }

    /// The items and the cursor of the next page.
    pub fn into_parts(self) -> (r: (Vec<T>, Option<String>))
        ensures
            r.0@ == self.items@,
            r.1 == self.next_cursor,
    {
        (self.items, self.next_cursor)
    }
}

/// The cursor parameter of a listing request: the cursor verbatim, or empty for
/// the first page.
pub fn cursor_param(cursor: Option<String>) -> (r: String)
    ensures
        match cursor {
            Some(c) => r == c,
            None => r@ == Seq::<char>::empty(),
        },
{
    match cursor {
        Some(c) => c,
        None => String::new(),
    }
}

} // verus!
