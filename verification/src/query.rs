//! The query parameters of the listing pages, with their pagination and
//! filtering rules and the URLs they link to.

use vstd::prelude::*;

use crate::context::ContextOrderByField;
use crate::property::{clone_opt_string, opt_string_view};
use crate::text::{bool_str, dec_str, dec_str_signed, push_bool, push_i32, push_usize};

verus! {

/// The default page size of every listing.
pub const DEFAULT_LIMIT: usize = 100;

/// The query parameters of the event listing.
#[derive(Debug, Clone, Copy, PartialEq, Eq, Structural)]
pub struct GetEventsQuery {
    pub artifact: Option<i32>,
    pub execution: Option<i32>,
    pub limit: Option<usize>,
    pub offset: Option<usize>,
    pub asc: bool,
}

/// The page size the query asks for, or the default.
pub open spec fn events_limit_of(q: GetEventsQuery) -> int {
    match q.limit {
        Option::Some(l) => l as int,
        Option::None => DEFAULT_LIMIT as int,
    }
}

/// The offset the query asks for, or zero.
pub open spec fn events_offset_of(q: GetEventsQuery) -> int {
    match q.offset {
        Option::Some(o) => o as int,
        Option::None => 0,
    }
}

/// The URL of the event listing for this query.
pub open spec fn events_url_of(q: GetEventsQuery) -> Seq<char> {
    "/events/?limit="@ + dec_str(events_limit_of(q) as nat) + "&offset="@ + dec_str(
        events_offset_of(q) as nat,
    ) + "&asc="@ + bool_str(q.asc) + (match q.artifact {
        Option::Some(a) => "&artifact="@ + dec_str_signed(a as int),
        Option::None => Seq::empty(),
    }) + (match q.execution {
        Option::Some(x) => "&execution="@ + dec_str_signed(x as int),
        Option::None => Seq::empty(),
    })
}

impl GetEventsQuery {
    /// The page size, defaulting to [`DEFAULT_LIMIT`].
    pub fn limit(&self) -> (r: usize)
        ensures
            r == events_limit_of(*self),
    {
        match self.limit {
            Option::Some(l) => l,
            Option::None => DEFAULT_LIMIT,
        }
    }

    /// The offset, defaulting to zero.
    pub fn offset(&self) -> (r: usize)
        ensures
            r == events_offset_of(*self),
    {
        match self.offset {
            Option::Some(o) => o,
            Option::None => 0,
        }
    }

    /// The previous page: the offset moves back one page, stopping at zero.
    pub fn prev(&self) -> (r: Self)
        ensures
            r.artifact == self.artifact,
            r.execution == self.execution,
            r.limit == self.limit,
            r.asc == self.asc,
            r.offset matches Option::Some(o) && o == if events_offset_of(*self) >= events_limit_of(
                *self,
            ) {
                events_offset_of(*self) - events_limit_of(*self)
            } else {
                0
            },
    {
        let offset = self.offset();
        let limit = self.limit();
        let new_offset = if offset >= limit {
            offset - limit
        } else {
            0
        };
        let mut r = *self;
        r.offset = Option::Some(new_offset);
        r
    }

    /// The next page: the offset moves forward one page.
    pub fn next(&self) -> (r: Self)
        requires
            events_offset_of(*self) + events_limit_of(*self) <= usize::MAX,
        ensures
            r.artifact == self.artifact,
            r.execution == self.execution,
            r.limit == self.limit,
            r.asc == self.asc,
            r.offset matches Option::Some(o) && o == events_offset_of(*self) + events_limit_of(
                *self,
            ),
    {
        let mut r = *self;
        r.offset = Option::Some(self.offset() + self.limit());
        r
    }

    /// The same listing ordered by creation time, from its first page.
    pub fn order_by_ctime(&self, asc: bool) -> (r: Self)
        ensures
            r.artifact == self.artifact,
            r.execution == self.execution,
            r.limit == self.limit,
            r.offset is None,
            r.asc == asc,
    {
        let mut r = *self;
        r.asc = asc;
        r.offset = Option::None;
        r
    }

    /// The listing narrowed to one execution, from its first page.
    pub fn execution(&self, id: i32) -> (r: Self)
        ensures
            r.artifact == self.artifact,
            r.execution matches Option::Some(x) && x == id,
            r.limit == self.limit,
            r.offset is None,
            r.asc == self.asc,
    {
        let mut r = *self;
        r.execution = Option::Some(id);
        r.offset = Option::None;
        r
    }

    /// The listing narrowed to one artifact, from its first page.
    pub fn artifact(&self, id: i32) -> (r: Self)
        ensures
            r.artifact matches Option::Some(a) && a == id,
            r.execution == self.execution,
            r.limit == self.limit,
            r.offset is None,
            r.asc == self.asc,
    {
        let mut r = *self;
        r.artifact = Option::Some(id);
        r.offset = Option::None;
        r
    }

    /// The URL of the event listing for this query.
    pub fn to_url(&self) -> (r: String)
        ensures
            r@ == events_url_of(*self),
    {
        let mut s = String::from_str("/events/?limit=");
        push_usize(&mut s, self.limit());
        s.append("&offset=");
        push_usize(&mut s, self.offset());
        s.append("&asc=");
        push_bool(&mut s, self.asc);
        match self.artifact {
            Option::Some(a) => {
                s.append("&artifact=");
                push_i32(&mut s, a);
            },
            Option::None => {},
        }
        match self.execution {
            Option::Some(x) => {
                s.append("&execution=");
                push_i32(&mut s, x);
            },
            Option::None => {},
        }
        proof {
            assert(s@ =~= events_url_of(*self));
        }
        s
    }
}

/// The query parameters of the context listing.
#[derive(Debug)]
pub struct GetContextsQuery {
    pub type_label: Option<String>,
    pub name: Option<String>,
    pub execution: Option<i32>,
    pub artifact: Option<i32>,
    pub limit: Option<usize>,
    pub offset: Option<usize>,
    pub order_by: ContextOrderByField,
    pub asc: bool,
}

/// The page size the query asks for, or the default.
pub open spec fn contexts_limit_of(q: GetContextsQuery) -> int {
    match q.limit {
        Option::Some(l) => l as int,
        Option::None => DEFAULT_LIMIT as int,
    }
}

/// The offset the query asks for, or zero.
pub open spec fn contexts_offset_of(q: GetContextsQuery) -> int {
    match q.offset {
        Option::Some(o) => o as int,
        Option::None => 0,
    }
}

impl GetContextsQuery {
    /// The page size, defaulting to [`DEFAULT_LIMIT`].
    pub fn limit(&self) -> (r: usize)
        ensures
            r == contexts_limit_of(*self),
    {
        match self.limit {
            Option::Some(l) => l,
            Option::None => DEFAULT_LIMIT,
        }
    }

    /// The offset, defaulting to zero.
    pub fn offset(&self) -> (r: usize)
        ensures
            r == contexts_offset_of(*self),
    {
        match self.offset {
            Option::Some(o) => o,
            Option::None => 0,
        }
    }

    /// The previous page: the offset moves back one page, stopping at zero.
    pub fn prev(&self) -> (r: Self)
        ensures
            opt_string_view(r.type_label) == opt_string_view(self.type_label),
            opt_string_view(r.name) == opt_string_view(self.name),
            r.execution == self.execution,
            r.artifact == self.artifact,
            r.limit == self.limit,
            r.order_by == self.order_by,
            r.asc == self.asc,
            r.offset matches Option::Some(o) && o == if contexts_offset_of(*self)
                >= contexts_limit_of(*self) {
                contexts_offset_of(*self) - contexts_limit_of(*self)
            } else {
                0
            },
    {
        let offset = self.offset();
        let limit = self.limit();
        let new_offset = if offset >= limit {
            offset - limit
        } else {
            0
        };
        GetContextsQuery {
            type_label: clone_opt_string(&self.type_label),
            name: clone_opt_string(&self.name),
            offset: Option::Some(new_offset),
            ..*self
        }
    }

    /// The next page: the offset moves forward one page.
    pub fn next(&self) -> (r: Self)
        requires
            contexts_offset_of(*self) + contexts_limit_of(*self) <= usize::MAX,
        ensures
            opt_string_view(r.type_label) == opt_string_view(self.type_label),
            opt_string_view(r.name) == opt_string_view(self.name),
            r.execution == self.execution,
            r.artifact == self.artifact,
            r.limit == self.limit,
            r.order_by == self.order_by,
            r.asc == self.asc,
            r.offset matches Option::Some(o) && o == contexts_offset_of(*self) + contexts_limit_of(
                *self,
            ),
    {
        GetContextsQuery {
            type_label: clone_opt_string(&self.type_label),
            name: clone_opt_string(&self.name),
            offset: Option::Some(self.offset() + self.limit()),
            ..*self
        }
    }

    /// The listing narrowed to one type name, from its first page.
    pub fn filter_type(&self, type_label: &str) -> (r: Self)
        ensures
            r.type_label matches Option::Some(t) && t@ == type_label@,
            opt_string_view(r.name) == opt_string_view(self.name),
            r.execution == self.execution,
            r.artifact == self.artifact,
            r.limit == self.limit,
            r.offset is None,
            r.order_by == self.order_by,
            r.asc == self.asc,
    {
        GetContextsQuery {
            type_label: Option::Some(type_label.to_owned()),
            name: clone_opt_string(&self.name),
            offset: Option::None,
            ..*self
        }
    }

    /// The same listing under another ordering, from its first page.
    pub fn order_by(&self, field: ContextOrderByField, asc: bool) -> (r: Self)
        ensures
            opt_string_view(r.type_label) == opt_string_view(self.type_label),
            opt_string_view(r.name) == opt_string_view(self.name),
            r.execution == self.execution,
            r.artifact == self.artifact,
            r.limit == self.limit,
            r.offset is None,
            r.order_by == field,
            r.asc == asc,
    {
        GetContextsQuery {
            type_label: clone_opt_string(&self.type_label),
            name: clone_opt_string(&self.name),
            offset: Option::None,
            order_by: field,
            asc,
            ..*self
        }
    }
}

/// The query parameters of the artifact detail page: the type name that
/// qualifies a lookup by name.
#[derive(Debug)]
pub struct GetArtifactQuery {
    pub type_label: Option<String>,
}

/// The query parameters of the execution detail page: the type name that
/// qualifies a lookup by name.
#[derive(Debug)]
pub struct GetExecutionQuery {
    pub type_label: Option<String>,
}

} // verus!
