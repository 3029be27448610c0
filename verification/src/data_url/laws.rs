//! What holds of every `data:` import: which media types count as JavaScript.

use vstd::prelude::*;

use super::{spec_data_source, spec_is_javascript_metadata, spec_materialize};
use crate::error::UsageErrorView;
use crate::text::{eq_ignore_ascii_case, first_index, lemma_first_index, split_on};

verus! {

/// Parameters after a media type: nothing, or `;` and what follows.
pub open spec fn is_parameters(t: Seq<char>) -> bool {
    t.len() == 0 || t[0] == ';'
}

proof fn lemma_split_without_separator(s: Seq<char>)
    requires
        !s.contains(';'),
    ensures
        split_on(s, ';') == seq![s],
    decreases s.len(),
{
    if s.len() == 0 {
        assert(s =~= Seq::<char>::empty());
    } else {
        assert(!s.drop_last().contains(';')) by {
            if s.drop_last().contains(';') {
                let i = choose|i: int| 0 <= i < s.drop_last().len() && s.drop_last()[i] == ';';
                assert(s[i] == ';');
            }
        }
        lemma_split_without_separator(s.drop_last());
        assert(s.last() != ';');
        assert(s.drop_last().push(s.last()) =~= s);
        let init = split_on(s.drop_last(), ';');
        assert(init == seq![s.drop_last()]);
        assert(init.len() == 1 && init.last() == s.drop_last());
        assert(split_on(s, ';') == init.update(0, s.drop_last().push(s.last())));
        assert(init.update(0, s.drop_last().push(s.last())) =~= seq![s]);
    }
}

/// The first `;`-separated piece of a media type followed by parameters is the media type.
proof fn lemma_split_media_type(media_type: Seq<char>, t: Seq<char>)
    requires
        !media_type.contains(';'),
        is_parameters(t),
    ensures
        split_on(media_type + t, ';')[0] == media_type,
        t.len() > 0 ==> split_on(media_type + t, ';').len() >= 2,
        split_on(media_type + t, ';').len() >= 1,
    decreases t.len(),
{
    if t.len() == 0 {
        assert(media_type + t =~= media_type);
        lemma_split_without_separator(media_type);
    } else {
        let s = media_type + t;
        let u = t.drop_last();
        assert(s.drop_last() =~= media_type + u);
        assert(s.last() == t.last());
        if u.len() > 0 {
            assert(u[0] == t[0]);
        }
        lemma_split_media_type(media_type, u);
        if u.len() == 0 {
            assert(t.last() == ';');
        }
    }
}

/// A `data:` URL's metadata names JavaScript exactly when its media type (what comes
/// before any parameters) is `text/javascript` or `application/javascript`, in any
/// mix of upper and lower case.
pub proof fn law_javascript_media_types(media_type: Seq<char>, parameters: Seq<char>)
    requires
        !media_type.contains(';'),
        is_parameters(parameters),
    ensures
        spec_is_javascript_metadata(media_type + parameters)
            <==> (eq_ignore_ascii_case(media_type, "text/javascript"@) || eq_ignore_ascii_case(media_type, "application/javascript"@)),
{
    lemma_split_media_type(media_type, parameters);
}

proof fn lemma_data_source_of(media_type: Seq<char>, parameters: Seq<char>, payload: Seq<char>)
    requires
        !media_type.contains(';'),
        !media_type.contains(','),
        !parameters.contains(','),
        is_parameters(parameters),
    ensures
        (spec_data_source(media_type + parameters + ","@ + payload) == Ok::<Option<Seq<u8>>, UsageErrorView>(None))
            <==> !spec_is_javascript_metadata(media_type + parameters),
{
    reveal_strlit(",");
    let rest = media_type + parameters + ","@ + payload;
    let m = media_type + parameters;
    assert forall|j: int| 0 <= j < m.len() implies rest[j] != ',' by {
        assert(rest[j] == m[j]);
        if j < media_type.len() {
            assert(m[j] == media_type[j]);
            if media_type[j] == ',' { assert(media_type.contains(',')); }
        } else {
            assert(m[j] == parameters[j - media_type.len()]);
            if parameters[j - media_type.len()] == ',' { assert(parameters.contains(',')); }
        }
    }
    assert(rest[m.len() as int] == ',');
    lemma_first_index(rest, ',', m.len() as int);
    assert(rest.take(m.len() as int) =~= m);
}

proof fn lemma_data_scheme(rest: Seq<char>)
    ensures
        first_index("data:"@ + rest, ':') == 4,
        eq_ignore_ascii_case(("data:"@ + rest).take(4), "data"@),
        ("data:"@ + rest).skip(5) == rest,
{
    reveal_strlit("data:");
    reveal_strlit("data");
    let spec = "data:"@ + rest;
    lemma_first_index(spec, ':', 4);
    assert(spec.take(4) =~= "data"@);
    assert(spec.skip(5) =~= rest);
}

/// A `data:` import with a JavaScript media type becomes a module (or a decoding
/// error); with any other media type it is left alone.
pub proof fn law_javascript_data_urls_materialized(media_type: Seq<char>, parameters: Seq<char>, payload: Seq<char>)
    requires
        !media_type.contains(';'),
        !media_type.contains(','),
        !parameters.contains(','),
        is_parameters(parameters),
    ensures
        (spec_materialize("data:"@ + (media_type + parameters + ","@ + payload)) == Ok::<Option<(Seq<char>, Seq<u8>)>, UsageErrorView>(None))
            <==> !(eq_ignore_ascii_case(media_type, "text/javascript"@) || eq_ignore_ascii_case(media_type, "application/javascript"@)),
{
    law_javascript_media_types(media_type, parameters);
    lemma_data_source_of(media_type, parameters, payload);
    lemma_data_scheme(media_type + parameters + ","@ + payload);
}

} // verus!
