//! The query parameters of the metric plots, and the URLs through which a
//! plot is narrowed down step by step.

use vstd::prelude::*;
use vstd::seq_lib::lemma_concat_associative;

use crate::artifact::ArtifactOrderByField;
use crate::property::{clone_opt_string, opt_string_view};
use crate::text::{bool_str, dec_str, dec_str_signed, push_bool, push_char, push_i32, push_usize};

verus! {

/// A string as it stands in a query value: every `+` becomes `%2B`, all
/// other characters stand as they are.
pub open spec fn plus_escape(s: Seq<char>) -> Seq<char>
    decreases s.len(),
{
    if s.len() == 0 {
        Seq::empty()
    } else {
        plus_escape(s.drop_last()) + (if s.last() == '+' {
            "%2B"@
        } else {
            seq![s.last()]
        })
    }
}

/// Appends `t` to `s` with every `+` escaped.
pub fn push_plus_escaped(s: &mut String, t: &str)
    ensures
        final(s)@ == old(s)@ + plus_escape(t@),
{
    let len = t.unicode_len();
    let mut i: usize = 0;
    while i < len
        invariant
            i <= len,
            len == t@.len(),
            s@ == old(s)@ + plus_escape(t@.take(i as int)),
        decreases len - i,
    {
        let c = t.get_char(i);
        if c == '+' {
            s.append("%2B");
        } else {
            push_char(s, c);
        }
        proof {
            assert(t@.take(i + 1).drop_last() =~= t@.take(i as int));
            assert(t@.take(i + 1).last() == t@[i as int]);
            assert(s@ =~= old(s)@ + plus_escape(t@.take(i + 1)));
        }
        i = i + 1;
    }
    proof {
        assert(t@.take(len as int) =~= t@);
    }
}

/// The query-string name of an artifact ordering field.
pub open spec fn order_field_text(f: ArtifactOrderByField) -> Seq<char> {
    match f {
        ArtifactOrderByField::Id => "id"@,
        ArtifactOrderByField::Name => "name"@,
        ArtifactOrderByField::CreateTime => "create-time"@,
        ArtifactOrderByField::UpdateTime => "update-time"@,
    }
}

/// An optional query parameter taken as it is: `key` followed by the raw
/// value, or nothing.
pub open spec fn raw_part(key: Seq<char>, v: Option<Seq<char>>) -> Seq<char> {
    match v {
        Option::Some(x) => key + x,
        Option::None => Seq::empty(),
    }
}

/// An optional query parameter with its value `+`-escaped, or nothing.
pub open spec fn escaped_part(key: Seq<char>, v: Option<Seq<char>>) -> Seq<char> {
    match v {
        Option::Some(x) => key + plus_escape(x),
        Option::None => Seq::empty(),
    }
}

/// An optional signed numeric query parameter, or nothing.
pub open spec fn num_part(key: Seq<char>, v: Option<int>) -> Seq<char> {
    match v {
        Option::Some(x) => key + dec_str_signed(x),
        Option::None => Seq::empty(),
    }
}

/// An optional non-negative numeric query parameter, or nothing.
pub open spec fn size_part(key: Seq<char>, v: Option<int>) -> Seq<char> {
    match v {
        Option::Some(x) => key + dec_str(x as nat),
        Option::None => Seq::empty(),
    }
}

/// Appends `raw_part(key@, ..)` for an optional string value.
fn push_raw_part(s: &mut String, key: &str, v: &Option<String>)
    ensures
        final(s)@ == old(s)@ + raw_part(key@, opt_string_view(*v)),
{
    match v {
        Option::Some(x) => {
            s.append(key);
            s.append(x.as_str());
            proof {
                lemma_concat_associative(old(s)@, key@, x@);
            }
        },
        Option::None => {
            proof {
                assert(s@ =~= old(s)@ + raw_part(key@, opt_string_view(*v)));
            }
        },
    }
}

/// Appends `escaped_part(key@, ..)` for an optional string value.
fn push_escaped_part(s: &mut String, key: &str, v: &Option<String>)
    ensures
        final(s)@ == old(s)@ + escaped_part(key@, opt_string_view(*v)),
{
    match v {
        Option::Some(x) => {
            s.append(key);
            push_plus_escaped(s, x.as_str());
            proof {
                lemma_concat_associative(old(s)@, key@, plus_escape(x@));
            }
        },
        Option::None => {
            proof {
                assert(s@ =~= old(s)@ + escaped_part(key@, opt_string_view(*v)));
            }
        },
    }
}

/// The mathematical value of an optional `i32`.
pub open spec fn opt_i32_view(v: Option<i32>) -> Option<int> {
    match v {
        Option::Some(x) => Option::Some(x as int),
        Option::None => Option::None,
    }
}

/// The mathematical value of an optional `usize`.
pub open spec fn opt_usize_view(v: Option<usize>) -> Option<int> {
    match v {
        Option::Some(x) => Option::Some(x as int),
        Option::None => Option::None,
    }
}

/// Appends `num_part(key@, ..)` for an optional signed id.
fn push_num_part(s: &mut String, key: &str, v: Option<i32>)
    ensures
        final(s)@ == old(s)@ + num_part(key@, opt_i32_view(v)),
{
    match v {
        Option::Some(x) => {
            s.append(key);
            push_i32(s, x);
            proof {
                lemma_concat_associative(old(s)@, key@, dec_str_signed(x as int));
            }
        },
        Option::None => {
            proof {
                assert(s@ =~= old(s)@ + num_part(key@, opt_i32_view(v)));
            }
        },
    }
}

/// Appends `size_part(key@, ..)` for an optional count.
fn push_size_part(s: &mut String, key: &str, v: Option<usize>)
    ensures
        final(s)@ == old(s)@ + size_part(key@, opt_usize_view(v)),
{
    match v {
        Option::Some(x) => {
            s.append(key);
            push_usize(s, x);
            proof {
                lemma_concat_associative(old(s)@, key@, dec_str(x as nat));
            }
        },
        Option::None => {
            proof {
                assert(s@ =~= old(s)@ + size_part(key@, opt_usize_view(v)));
            }
        },
    }
}

/// The query string of an artifact listing's parameters, keys in
/// alphabetical order, absent options left out.
pub open spec fn artifact_qs(
    type_label: Option<Seq<char>>,
    name: Option<Seq<char>>,
    context: Option<int>,
    limit: Option<int>,
    offset: Option<int>,
    order_by: ArtifactOrderByField,
    asc: bool,
) -> Seq<char> {
    "asc="@ + bool_str(asc) + num_part("&context="@, context) + size_part("&limit="@, limit)
        + escaped_part("&name="@, name) + size_part("&offset="@, offset) + "&order-by="@
        + order_field_text(order_by) + escaped_part("&type="@, type_label)
}

/// Appends the artifact-listing query string for the given parameters.
#[allow(clippy::too_many_arguments)]
fn push_artifact_qs(
    s: &mut String,
    type_label: &Option<String>,
    name: &Option<String>,
    context: Option<i32>,
    limit: Option<usize>,
    offset: Option<usize>,
    order_by: ArtifactOrderByField,
    asc: bool,
)
    ensures
        final(s)@ == old(s)@ + artifact_qs(
            opt_string_view(*type_label),
            opt_string_view(*name),
            opt_i32_view(context),
            opt_usize_view(limit),
            opt_usize_view(offset),
            order_by,
            asc,
        ),
{
    let ghost base = old(s)@;
    let ghost q1 = "asc="@ + bool_str(asc);
    let ghost q2 = q1 + num_part("&context="@, opt_i32_view(context));
    let ghost q3 = q2 + size_part("&limit="@, opt_usize_view(limit));
    let ghost q4 = q3 + escaped_part("&name="@, opt_string_view(*name));
    let ghost q5 = q4 + size_part("&offset="@, opt_usize_view(offset));
    let ghost q6 = q5 + "&order-by="@;
    let ghost q7 = q6 + order_field_text(order_by);
    let ghost q8 = q7 + escaped_part("&type="@, opt_string_view(*type_label));

    s.append("asc=");
    push_bool(s, asc);
    proof {
        lemma_concat_associative(base, "asc="@, bool_str(asc));
        assert(s@ == base + q1);
    }
    push_num_part(s, "&context=", context);
    proof {
        lemma_concat_associative(base, q1, num_part("&context="@, opt_i32_view(context)));
        assert(s@ == base + q2);
    }
    push_size_part(s, "&limit=", limit);
    proof {
        lemma_concat_associative(base, q2, size_part("&limit="@, opt_usize_view(limit)));
        assert(s@ == base + q3);
    }
    push_escaped_part(s, "&name=", name);
    proof {
        lemma_concat_associative(base, q3, escaped_part("&name="@, opt_string_view(*name)));
        assert(s@ == base + q4);
    }
    push_size_part(s, "&offset=", offset);
    proof {
        lemma_concat_associative(base, q4, size_part("&offset="@, opt_usize_view(offset)));
        assert(s@ == base + q5);
    }
    s.append("&order-by=");
    proof {
        lemma_concat_associative(base, q5, "&order-by="@);
        assert(s@ == base + q6);
    }
    match order_by {
        ArtifactOrderByField::Id => s.append("id"),
        ArtifactOrderByField::Name => s.append("name"),
        ArtifactOrderByField::CreateTime => s.append("create-time"),
        ArtifactOrderByField::UpdateTime => s.append("update-time"),
    }
    proof {
        lemma_concat_associative(base, q6, order_field_text(order_by));
        assert(s@ == base + q7);
    }
    push_escaped_part(s, "&type=", type_label);
    proof {
        lemma_concat_associative(base, q7, escaped_part("&type="@, opt_string_view(*type_label)));
        assert(s@ == base + q8);
    }
}

/// The query parameters of the histogram plot.
#[derive(Debug)]
pub struct PlotHistogramQuery {
    pub type_label: Option<String>,
    pub name: Option<String>,
    pub context: Option<i32>,
    pub limit: Option<usize>,
    pub offset: Option<usize>,
    pub order_by: ArtifactOrderByField,
    pub asc: bool,
    pub metric: Option<String>,
    pub group_key: Option<String>,
    pub group_value: Option<String>,
    pub do_plot: bool,
}

/// The mathematical value of a [`PlotHistogramQuery`].
#[verifier::ext_equal]
pub ghost struct PlotHistogramQueryV {
    pub type_label: Option<Seq<char>>,
    pub name: Option<Seq<char>>,
    pub context: Option<int>,
    pub limit: Option<int>,
    pub offset: Option<int>,
    pub order_by: ArtifactOrderByField,
    pub asc: bool,
    pub metric: Option<Seq<char>>,
    pub group_key: Option<Seq<char>>,
    pub group_value: Option<Seq<char>>,
    pub do_plot: bool,
}

impl View for PlotHistogramQuery {
    type V = PlotHistogramQueryV;

    open spec fn view(&self) -> PlotHistogramQueryV {
        PlotHistogramQueryV {
            type_label: opt_string_view(self.type_label),
            name: opt_string_view(self.name),
            context: opt_i32_view(self.context),
            limit: opt_usize_view(self.limit),
            offset: opt_usize_view(self.offset),
            order_by: self.order_by,
            asc: self.asc,
            metric: opt_string_view(self.metric),
            group_key: opt_string_view(self.group_key),
            group_value: opt_string_view(self.group_value),
            do_plot: self.do_plot,
        }
    }
}

/// The trailing switch of a plot URL: present only when plotting is on.
pub open spec fn do_plot_part(do_plot: bool) -> Seq<char> {
    if do_plot {
        "&do-plot=true"@
    } else {
        Seq::empty()
    }
}

/// The URL of the histogram plot for this query.
pub open spec fn histogram_url_of(q: PlotHistogramQueryV) -> Seq<char> {
    "/plot/histogram?"@ + artifact_qs(
        q.type_label,
        q.name,
        q.context,
        q.limit,
        q.offset,
        q.order_by,
        q.asc,
    ) + raw_part("&metric="@, q.metric) + raw_part("&group-key="@, q.group_key) + raw_part(
        "&group-value="@,
        q.group_value,
    ) + do_plot_part(q.do_plot)
}

impl Clone for PlotHistogramQuery {
    fn clone(&self) -> (r: Self)
        ensures
            r@ == self@,
    {
        PlotHistogramQuery {
            type_label: clone_opt_string(&self.type_label),
            name: clone_opt_string(&self.name),
            context: self.context,
            limit: self.limit,
            offset: self.offset,
            order_by: self.order_by,
            asc: self.asc,
            metric: clone_opt_string(&self.metric),
            group_key: clone_opt_string(&self.group_key),
            group_value: clone_opt_string(&self.group_value),
            do_plot: self.do_plot,
        }
    }
}

impl PlotHistogramQuery {
    /// The same plot with the metric property chosen.
    pub fn metric(&self, name: &str) -> (r: Self)
        ensures
            r@ == (PlotHistogramQueryV { metric: Option::Some(name@), ..self@ }),
    {
        let mut r = self.clone();
        r.metric = Option::Some(name.to_owned());
        proof {
            assert(r@ =~= (PlotHistogramQueryV { metric: Option::Some(name@), ..self@ }));
        }
        r
    }

    /// The same plot narrowed to artifacts whose property `key` equals
    /// `value`.
    pub fn group(&self, key: &str, value: &str) -> (r: Self)
        ensures
            r@ == (PlotHistogramQueryV {
                group_key: Option::Some(key@),
                group_value: Option::Some(value@),
                ..self@
            }),
    {
        let mut r = self.clone();
        r.group_key = Option::Some(key.to_owned());
        r.group_value = Option::Some(value.to_owned());
        proof {
            assert(r@ =~= (PlotHistogramQueryV {
                group_key: Option::Some(key@),
                group_value: Option::Some(value@),
                ..self@
            }));
        }
        r
    }

    /// The same query with plotting switched on.
    pub fn do_plot(&self) -> (r: Self)
        ensures
            r@ == (PlotHistogramQueryV { do_plot: true, ..self@ }),
    {
        let mut r = self.clone();
        r.do_plot = true;
        proof {
            assert(r@ =~= (PlotHistogramQueryV { do_plot: true, ..self@ }));
        }
        r
    }

    /// The URL of the histogram plot for this query.
    pub fn to_url(&self) -> (r: String)
        ensures
            r@ == histogram_url_of(self@),
    {
        let ghost base = "/plot/histogram?"@;
        let ghost qs = artifact_qs(
            self@.type_label,
            self@.name,
            self@.context,
            self@.limit,
            self@.offset,
            self@.order_by,
            self@.asc,
        );
        let ghost u1 = base + qs;
        let ghost u2 = u1 + raw_part("&metric="@, self@.metric);
        let ghost u3 = u2 + raw_part("&group-key="@, self@.group_key);
        let ghost u4 = u3 + raw_part("&group-value="@, self@.group_value);
        let mut s = String::from_str("/plot/histogram?");
        push_artifact_qs(
            &mut s,
            &self.type_label,
            &self.name,
            self.context,
            self.limit,
            self.offset,
            self.order_by,
            self.asc,
        );
        proof {
            assert(s@ == u1);
        }
        push_raw_part(&mut s, "&metric=", &self.metric);
        push_raw_part(&mut s, "&group-key=", &self.group_key);
        push_raw_part(&mut s, "&group-value=", &self.group_value);
        proof {
            assert(s@ == u4);
        }
        if self.do_plot {
            s.append("&do-plot=true");
        }
        proof {
            assert(s@ == u4 + do_plot_part(self@.do_plot));
        }
        s
    }
}

/// The query parameters of the scatter plot.
#[derive(Debug)]
pub struct PlotScatterQuery {
    pub type_label: Option<String>,
    pub name: Option<String>,
    pub context: Option<i32>,
    pub limit: Option<usize>,
    pub offset: Option<usize>,
    pub order_by: ArtifactOrderByField,
    pub asc: bool,
    pub x_filter_key: Option<String>,
    pub x_filter_value: Option<String>,
    pub x_metric: Option<String>,
    pub y_filter_key: Option<String>,
    pub y_filter_value: Option<String>,
    pub y_metric: Option<String>,
    pub join_key: Option<String>,
    pub do_plot: bool,
}

/// The mathematical value of a [`PlotScatterQuery`].
#[verifier::ext_equal]
pub ghost struct PlotScatterQueryV {
    pub type_label: Option<Seq<char>>,
    pub name: Option<Seq<char>>,
    pub context: Option<int>,
    pub limit: Option<int>,
    pub offset: Option<int>,
    pub order_by: ArtifactOrderByField,
    pub asc: bool,
    pub x_filter_key: Option<Seq<char>>,
    pub x_filter_value: Option<Seq<char>>,
    pub x_metric: Option<Seq<char>>,
    pub y_filter_key: Option<Seq<char>>,
    pub y_filter_value: Option<Seq<char>>,
    pub y_metric: Option<Seq<char>>,
    pub join_key: Option<Seq<char>>,
    pub do_plot: bool,
}

impl View for PlotScatterQuery {
    type V = PlotScatterQueryV;

    open spec fn view(&self) -> PlotScatterQueryV {
        PlotScatterQueryV {
            type_label: opt_string_view(self.type_label),
            name: opt_string_view(self.name),
            context: opt_i32_view(self.context),
            limit: opt_usize_view(self.limit),
            offset: opt_usize_view(self.offset),
            order_by: self.order_by,
            asc: self.asc,
            x_filter_key: opt_string_view(self.x_filter_key),
            x_filter_value: opt_string_view(self.x_filter_value),
            x_metric: opt_string_view(self.x_metric),
            y_filter_key: opt_string_view(self.y_filter_key),
            y_filter_value: opt_string_view(self.y_filter_value),
            y_metric: opt_string_view(self.y_metric),
            join_key: opt_string_view(self.join_key),
            do_plot: self.do_plot,
        }
    }
}

/// The URL of the scatter plot for this query.
pub open spec fn scatter_url_of(q: PlotScatterQueryV) -> Seq<char> {
    "/plot/scatter?"@ + artifact_qs(
        q.type_label,
        q.name,
        q.context,
        q.limit,
        q.offset,
        q.order_by,
        q.asc,
    ) + raw_part("&x-metric="@, q.x_metric) + raw_part("&y-metric="@, q.y_metric) + raw_part(
        "&join-key="@,
        q.join_key,
    ) + raw_part("&x-filter-key="@, q.x_filter_key) + raw_part("&y-filter-key="@, q.y_filter_key)
        + raw_part("&x-filter-value="@, q.x_filter_value) + raw_part(
        "&y-filter-value="@,
        q.y_filter_value,
    ) + do_plot_part(q.do_plot)
}

impl Clone for PlotScatterQuery {
    fn clone(&self) -> (r: Self)
        ensures
            r@ == self@,
    {
        PlotScatterQuery {
            type_label: clone_opt_string(&self.type_label),
            name: clone_opt_string(&self.name),
            context: self.context,
            limit: self.limit,
            offset: self.offset,
            order_by: self.order_by,
            asc: self.asc,
            x_filter_key: clone_opt_string(&self.x_filter_key),
            x_filter_value: clone_opt_string(&self.x_filter_value),
            x_metric: clone_opt_string(&self.x_metric),
            y_filter_key: clone_opt_string(&self.y_filter_key),
            y_filter_value: clone_opt_string(&self.y_filter_value),
            y_metric: clone_opt_string(&self.y_metric),
            join_key: clone_opt_string(&self.join_key),
            do_plot: self.do_plot,
        }
    }
}

impl PlotScatterQuery {
    /// The same plot with the x-axis metric property chosen.
    pub fn x_metric(&self, name: &str) -> (r: Self)
        ensures
            r@ == (PlotScatterQueryV { x_metric: Option::Some(name@), ..self@ }),
    {
        let mut r = self.clone();
        r.x_metric = Option::Some(name.to_owned());
        proof {
            assert(r@ =~= (PlotScatterQueryV { x_metric: Option::Some(name@), ..self@ }));
        }
        r
    }

    /// The same plot with the y-axis metric property chosen.
    pub fn y_metric(&self, name: &str) -> (r: Self)
        ensures
            r@ == (PlotScatterQueryV { y_metric: Option::Some(name@), ..self@ }),
    {
        let mut r = self.clone();
        r.y_metric = Option::Some(name.to_owned());
        proof {
            assert(r@ =~= (PlotScatterQueryV { y_metric: Option::Some(name@), ..self@ }));
        }
        r
    }

    /// The same plot with the join-key property chosen.
    pub fn join_key(&self, name: &str) -> (r: Self)
        ensures
            r@ == (PlotScatterQueryV { join_key: Option::Some(name@), ..self@ }),
    {
        let mut r = self.clone();
        r.join_key = Option::Some(name.to_owned());
        proof {
            assert(r@ =~= (PlotScatterQueryV { join_key: Option::Some(name@), ..self@ }));
        }
        r
    }

    /// The same plot narrowed on the x axis to artifacts whose property `k`
    /// equals `v`.
    pub fn x_filter(&self, k: &str, v: &str) -> (r: Self)
        ensures
            r@ == (PlotScatterQueryV {
                x_filter_key: Option::Some(k@),
                x_filter_value: Option::Some(v@),
                ..self@
            }),
    {
        let mut r = self.clone();
        r.x_filter_key = Option::Some(k.to_owned());
        r.x_filter_value = Option::Some(v.to_owned());
        proof {
            assert(r@ =~= (PlotScatterQueryV {
                x_filter_key: Option::Some(k@),
                x_filter_value: Option::Some(v@),
                ..self@
            }));
        }
        r
    }

    /// The same plot narrowed on the y axis to artifacts whose property `k`
    /// equals `v`.
    pub fn y_filter(&self, k: &str, v: &str) -> (r: Self)
        ensures
            r@ == (PlotScatterQueryV {
                y_filter_key: Option::Some(k@),
                y_filter_value: Option::Some(v@),
                ..self@
            }),
    {
        let mut r = self.clone();
        r.y_filter_key = Option::Some(k.to_owned());
        r.y_filter_value = Option::Some(v.to_owned());
        proof {
            assert(r@ =~= (PlotScatterQueryV {
                y_filter_key: Option::Some(k@),
                y_filter_value: Option::Some(v@),
                ..self@
            }));
        }
        r
    }

    /// The same query with plotting switched on.
    pub fn do_plot(&self) -> (r: Self)
        ensures
            r@ == (PlotScatterQueryV { do_plot: true, ..self@ }),
    {
        let mut r = self.clone();
        r.do_plot = true;
        proof {
            assert(r@ =~= (PlotScatterQueryV { do_plot: true, ..self@ }));
        }
        r
    }

    /// The URL of the scatter plot for this query.
    pub fn to_url(&self) -> (r: String)
        ensures
            r@ == scatter_url_of(self@),
    {
        let ghost base = "/plot/scatter?"@;
        let ghost qs = artifact_qs(
            self@.type_label,
            self@.name,
            self@.context,
            self@.limit,
            self@.offset,
            self@.order_by,
            self@.asc,
        );
        let ghost u1 = base + qs;
        let ghost u2 = u1 + raw_part("&x-metric="@, self@.x_metric);
        let ghost u3 = u2 + raw_part("&y-metric="@, self@.y_metric);
        let ghost u4 = u3 + raw_part("&join-key="@, self@.join_key);
        let ghost u5 = u4 + raw_part("&x-filter-key="@, self@.x_filter_key);
        let ghost u6 = u5 + raw_part("&y-filter-key="@, self@.y_filter_key);
        let ghost u7 = u6 + raw_part("&x-filter-value="@, self@.x_filter_value);
        let ghost u8 = u7 + raw_part("&y-filter-value="@, self@.y_filter_value);
        let mut s = String::from_str("/plot/scatter?");
        push_artifact_qs(
            &mut s,
            &self.type_label,
            &self.name,
            self.context,
            self.limit,
            self.offset,
            self.order_by,
            self.asc,
        );
        proof {
            assert(s@ == u1);
        }
        push_raw_part(&mut s, "&x-metric=", &self.x_metric);
        push_raw_part(&mut s, "&y-metric=", &self.y_metric);
        push_raw_part(&mut s, "&join-key=", &self.join_key);
        push_raw_part(&mut s, "&x-filter-key=", &self.x_filter_key);
        push_raw_part(&mut s, "&y-filter-key=", &self.y_filter_key);
        push_raw_part(&mut s, "&x-filter-value=", &self.x_filter_value);
        push_raw_part(&mut s, "&y-filter-value=", &self.y_filter_value);
        proof {
            assert(s@ == u8);
        }
        if self.do_plot {
            s.append("&do-plot=true");
        }
        proof {
            assert(s@ == u8 + do_plot_part(self@.do_plot));
        }
        s
    }
}

} // verus!
