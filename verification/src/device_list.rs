//! The list of device names that the engine tries by default.

use vstd::prelude::*;

verus! {

/// Whether `char::is_whitespace` holds of a character: whether it has the
/// Unicode property White_Space.
pub uninterp spec fn is_whitespace(c: char) -> bool;

/// `char::is_whitespace` says whether a character has the Unicode property
/// White_Space. The answer depends on the character alone.
pub assume_specification[ char::is_whitespace ](c: char) -> (white: bool)
    ensures
        white == is_whitespace(c),
;

/// `String::push` appends one character to the end of a string.
pub assume_specification[ String::push ](text: &mut String, c: char)
    ensures
        final(text)@ == old(text)@.push(c),
;

/// The names in a text: its longest runs of characters that are not white
/// space, in the order in which they stand.
pub open spec fn names_in(text: Seq<char>) -> Seq<Seq<char>>
    decreases text.len(),
{
    if text.len() == 0 {
        Seq::empty()
    } else {
        let before = text.drop_last();
        let c = text.last();
        if is_whitespace(c) {
            names_in(before)
        } else if before.len() > 0 && !is_whitespace(before.last()) {
            names_in(before).drop_last().push(names_in(before).last().push(c))
        } else {
            names_in(before).push(seq![c])
        }
    }
}

/// A list with one more name at its end, after a single space unless the
/// list was empty.
pub open spec fn with_name(list: Seq<char>, name: Seq<char>) -> Seq<char> {
    if list.len() == 0 {
        name
    } else {
        list + seq![' '] + name
    }
}

/// A list with more names at its end, in their order.
pub open spec fn with_names(list: Seq<char>, names: Seq<Seq<char>>) -> Seq<char>
    decreases names.len(),
{
    if names.len() == 0 {
        list
    } else {
        with_name(with_names(list, names.drop_last()), names.last())
    }
}

/// The names in a text, joined by single spaces.
pub open spec fn normalized(text: Seq<char>) -> Seq<char> {
    with_names(Seq::empty(), names_in(text))
}

/// A list with the names of each text of `texts` at its end, in their order.
pub open spec fn with_texts(list: Seq<char>, texts: Seq<Seq<char>>) -> Seq<char>
    decreases texts.len(),
{
    if texts.len() == 0 {
        list
    } else {
        with_names(with_texts(list, texts.drop_last()), names_in(texts.last()))
    }
}

/// A list of device names, kept as one text in which single spaces part the
/// names.
#[derive(Clone, Debug)]
pub struct DeviceList(String);

impl View for DeviceList {
    type V = Seq<char>;

    closed spec fn view(&self) -> Seq<char> {
        self.0@
    }
}

/// Appends the names in `text` to `out`.
fn push_names(out: &mut String, text: &str)
    ensures
        final(out)@ == with_names(old(out)@, names_in(text@)),
{
    let ghost base = out@;
    let mut in_name = false;
    for c in it: text.chars()
        invariant
            it.seq() == text@,
            out@ == with_names(base, names_in(text@.take(it.index() as int))),
            in_name <==> it.index() > 0 && !is_whitespace(text@[it.index() - 1]),
    {
        let ghost seen = text@.take(it.index() as int);
        let ghost next = text@.take(it.index() + 1);
        proof {
            assert(next.drop_last() =~= seen);
            assert(next.last() == c);
            assert(next =~= seen.push(c));
            if seen.len() > 0 {
                assert(seen.last() == text@[it.index() - 1]);
            }
        }
        if c.is_whitespace() {
            in_name = false;
            assert(names_in(next) == names_in(seen));
        } else {
            if in_name {
                out.push(c);
                proof {
                    lemma_name_grows(base, seen, c);
                }
            } else {
                if !out.as_str().is_empty() {
                    out.push(' ');
                }
                out.push(c);
                proof {
                    lemma_name_starts(base, seen, c);
                }
                assert(out@ =~= with_name(with_names(base, names_in(seen)), seq![c]));
            }
            in_name = true;
        }
        assert(out@ == with_names(base, names_in(next)));
    }
    assert(text@.take(text@.len() as int) =~= text@);
}

/// Where a text ends inside a name, one more character of that name shows as
/// one more character at the end of the list.
proof fn lemma_name_grows(base: Seq<char>, seen: Seq<char>, c: char)
    requires
        seen.len() > 0,
        !is_whitespace(seen.last()),
        !is_whitespace(c),
    ensures
        with_names(base, names_in(seen.push(c))) == with_names(base, names_in(seen)).push(c),
{
    let next = seen.push(c);
    assert(next.drop_last() =~= seen);
    let names = names_in(seen);
    assert(names.len() > 0);
    let grown = names.drop_last().push(names.last().push(c));
    assert(names_in(next) == grown);
    assert(grown.drop_last() =~= names.drop_last());
    let front = with_names(base, names.drop_last());
    assert(with_names(base, grown) == with_name(front, names.last().push(c)));
    assert(with_names(base, names) == with_name(front, names.last()));
    assert(with_name(front, names.last().push(c)) =~= with_name(front, names.last()).push(c));
}

/// Where a text ends outside a name, a character that is not white space
/// shows as a new name of one character at the end of the list.
proof fn lemma_name_starts(base: Seq<char>, seen: Seq<char>, c: char)
    requires
        seen.len() > 0 ==> is_whitespace(seen.last()),
        !is_whitespace(c),
    ensures
        with_names(base, names_in(seen.push(c))) == with_name(
            with_names(base, names_in(seen)),
            seq![c],
        ),
{
    let next = seen.push(c);
    assert(next.drop_last() =~= seen);
    let grown = names_in(seen).push(seq![c]);
    assert(names_in(next) == grown);
    assert(grown.drop_last() =~= names_in(seen));
}

impl DeviceList {
    /// The list of the names in `s`: its runs of characters that are not white
    /// space, joined by single spaces.
    pub fn new(s: &str) -> (list: DeviceList)
        ensures
            list@ == normalized(s@),
    {
        let mut text = String::new();
        push_names(&mut text, s);
        DeviceList(text)
    }

    /// The list as one text.
    pub fn as_str(&self) -> (text: &str)
        ensures
            text@ == self@,
    {
        self.0.as_str()
    }

    /// The list of the names in each text of `texts`, in their order.
    pub fn from_iter(texts: &[&str]) -> (list: DeviceList)
        ensures
            list@ == with_texts(Seq::empty(), text_views(texts@)),
    {
        let mut list = DeviceList(String::new());
        list.extend(texts);
        list
    }

    /// Appends the names in each text of `texts` to the list, in their order.
    /// A text may hold several names, or none.
    pub fn extend(&mut self, texts: &[&str])
        ensures
            final(self)@ == with_texts(old(self)@, text_views(texts@)),
    {
        let ghost views = text_views(texts@);
        let mut i: usize = 0;
        while i < texts.len()
            invariant
                i <= texts.len(),
                views == text_views(texts@),
                self@ == with_texts(old(self)@, views.take(i as int)),
            decreases texts.len() - i,
        {
            proof {
                assert(views.take(i + 1).drop_last() =~= views.take(i as int));
                assert(views.take(i + 1).last() == texts@[i as int]@);
            }
            push_names(&mut self.0, texts[i]);
            i = i + 1;
        }
        assert(views.take(texts.len() as int) =~= views);
    }

    /// The names of the list, in their order.
    pub fn names(&self) -> (names: Vec<String>)
        ensures
            string_views(names@) == names_in(self@),
    {
        let mut names: Vec<String> = Vec::new();
        let mut name = String::new();
        let mut in_name = false;
        let text = self.0.as_str();
        for c in it: text.chars()
            invariant
                it.seq() == text@,
                in_name <==> it.index() > 0 && !is_whitespace(text@[it.index() - 1]),
                names_in(text@.take(it.index() as int)) == if in_name {
                    string_views(names@).push(name@)
                } else {
                    string_views(names@)
                },
        {
            let ghost seen = text@.take(it.index() as int);
            let ghost next = text@.take(it.index() + 1);
            let ghost done = string_views(names@);
            let ghost partial = name@;
            proof {
                assert(next.drop_last() =~= seen);
                assert(next.last() == c);
                if seen.len() > 0 {
                    assert(seen.last() == text@[it.index() - 1]);
                }
            }
            if c.is_whitespace() {
                if in_name {
                    names.push(name);
                    name = String::new();
                    assert(string_views(names@) =~= done.push(partial));
                }
                in_name = false;
            } else {
                if in_name {
                    name.push(c);
                    assert(done.push(partial).drop_last() =~= done);
                } else {
                    name = String::new();
                    name.push(c);
                    assert(name@ =~= seq![c]);
                }
                in_name = true;
            }
        }
        assert(text@.take(text@.len() as int) =~= text@);
        if in_name {
            let ghost done = string_views(names@);
            names.push(name);
            assert(string_views(names@) =~= done.push(name@));
        }
        names
    }
}

/// The texts of a sequence of string slices.
pub open spec fn text_views(texts: Seq<&str>) -> Seq<Seq<char>> {
    texts.map_values(|text: &str| text@)
}

/// The texts of a sequence of strings.
pub open spec fn string_views(texts: Seq<String>) -> Seq<Seq<char>> {
    texts.map_values(|text: String| text@)
}

impl Default for DeviceList {
    /// The list without a name.
    fn default() -> (list: DeviceList)
        ensures
            list@ == Seq::<char>::empty(),
    {
        DeviceList(String::new())
    }
}

impl PartialEq for DeviceList {
    fn eq(&self, other: &DeviceList) -> (equal: bool) {
        self.0 == other.0
    }
}

impl Eq for DeviceList {

}

impl vstd::std_specs::cmp::PartialEqSpecImpl for DeviceList {
    open spec fn obeys_eq_spec() -> bool {
        true
    }

    open spec fn eq_spec(&self, other: &DeviceList) -> bool {
        self@ == other@
    }
}

} // verus!
