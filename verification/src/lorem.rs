//! Deterministic placeholder-text generation: a fixed ordered word list of
//! length 88, cycled through and joined with single spaces.

use vstd::prelude::*;
use vstd::string::StrSliceExecFns;
use vstd::string::StringExecFns;

verus! {

/// The fixed ordered word list that placeholder text cycles through.
pub open spec fn word_table() -> Seq<Seq<char>> {
    seq![
        "lorem"@, "ipsum"@, "dolor"@, "sit"@,
        "amet"@, "consectetur"@, "adipiscing"@, "elit"@,
        "sed"@, "do"@, "eiusmod"@, "tempor"@,
        "incididunt"@, "ut"@, "labore"@, "et"@,
        "dolore"@, "magna"@, "aliqua"@, "enim"@,
        "ad"@, "minim"@, "veniam"@, "quis"@,
        "nostrud"@, "exercitation"@, "ullamco"@, "laboris"@,
        "nisi"@, "aliquip"@, "ex"@, "ea"@,
        "commodo"@, "consequat"@, "duis"@, "aute"@,
        "irure"@, "in"@, "reprehenderit"@, "voluptate"@,
        "velit"@, "esse"@, "cillum"@, "fugiat"@,
        "nulla"@, "pariatur"@, "excepteur"@, "sint"@,
        "occaecat"@, "cupidatat"@, "non"@, "proident"@,
        "sunt"@, "culpa"@, "qui"@, "officia"@,
        "deserunt"@, "mollit"@, "anim"@, "id"@,
        "est"@, "laborum"@, "pellentesque"@, "habitant"@,
        "morbi"@, "tristique"@, "senectus"@, "netus"@,
        "et"@, "malesuada"@, "fames"@, "ac"@,
        "turpis"@, "egestas"@, "vestibulum"@, "tortor"@,
        "quam"@, "feugiat"@, "vitae"@, "ultricies"@,
        "legimus"@, "typi"@, "qui"@, "nusquam"@,
        "vici"@, "sunt"@, "signa"@, "consuetudium"@,
    ]
}

/// The word at a given position of the fixed list.
fn nth_word(i: usize) -> (w: &'static str)
    requires
        i < 88,
    ensures
        w@ == word_table()[i as int],
{
    if i == 0 {
        "lorem"
    } else if i == 1 {
        "ipsum"
    } else if i == 2 {
        "dolor"
    } else if i == 3 {
        "sit"
    } else if i == 4 {
        "amet"
    } else if i == 5 {
        "consectetur"
    } else if i == 6 {
        "adipiscing"
    } else if i == 7 {
        "elit"
    } else if i == 8 {
        "sed"
    } else if i == 9 {
        "do"
    } else if i == 10 {
        "eiusmod"
    } else if i == 11 {
        "tempor"
    } else if i == 12 {
        "incididunt"
    } else if i == 13 {
        "ut"
    } else if i == 14 {
        "labore"
    } else if i == 15 {
        "et"
    } else if i == 16 {
        "dolore"
    } else if i == 17 {
        "magna"
    } else if i == 18 {
        "aliqua"
    } else if i == 19 {
        "enim"
    } else if i == 20 {
        "ad"
    } else if i == 21 {
        "minim"
    } else if i == 22 {
        "veniam"
    } else if i == 23 {
        "quis"
    } else if i == 24 {
        "nostrud"
    } else if i == 25 {
        "exercitation"
    } else if i == 26 {
        "ullamco"
    } else if i == 27 {
        "laboris"
    } else if i == 28 {
        "nisi"
    } else if i == 29 {
        "aliquip"
    } else if i == 30 {
        "ex"
    } else if i == 31 {
        "ea"
    } else if i == 32 {
        "commodo"
    } else if i == 33 {
        "consequat"
    } else if i == 34 {
        "duis"
    } else if i == 35 {
        "aute"
    } else if i == 36 {
        "irure"
    } else if i == 37 {
        "in"
    } else if i == 38 {
        "reprehenderit"
    } else if i == 39 {
        "voluptate"
    } else if i == 40 {
        "velit"
    } else if i == 41 {
        "esse"
    } else if i == 42 {
        "cillum"
    } else if i == 43 {
        "fugiat"
    } else if i == 44 {
        "nulla"
    } else if i == 45 {
        "pariatur"
    } else if i == 46 {
        "excepteur"
    } else if i == 47 {
        "sint"
    } else if i == 48 {
        "occaecat"
    } else if i == 49 {
        "cupidatat"
    } else if i == 50 {
        "non"
    } else if i == 51 {
        "proident"
    } else if i == 52 {
        "sunt"
    } else if i == 53 {
        "culpa"
    } else if i == 54 {
        "qui"
    } else if i == 55 {
        "officia"
    } else if i == 56 {
        "deserunt"
    } else if i == 57 {
        "mollit"
    } else if i == 58 {
        "anim"
    } else if i == 59 {
        "id"
    } else if i == 60 {
        "est"
    } else if i == 61 {
        "laborum"
    } else if i == 62 {
        "pellentesque"
    } else if i == 63 {
        "habitant"
    } else if i == 64 {
        "morbi"
    } else if i == 65 {
        "tristique"
    } else if i == 66 {
        "senectus"
    } else if i == 67 {
        "netus"
    } else if i == 68 {
        "et"
    } else if i == 69 {
        "malesuada"
    } else if i == 70 {
        "fames"
    } else if i == 71 {
        "ac"
    } else if i == 72 {
        "turpis"
    } else if i == 73 {
        "egestas"
    } else if i == 74 {
        "vestibulum"
    } else if i == 75 {
        "tortor"
    } else if i == 76 {
        "quam"
    } else if i == 77 {
        "feugiat"
    } else if i == 78 {
        "vitae"
    } else if i == 79 {
        "ultricies"
    } else if i == 80 {
        "legimus"
    } else if i == 81 {
        "typi"
    } else if i == 82 {
        "qui"
    } else if i == 83 {
        "nusquam"
    } else if i == 84 {
        "vici"
    } else if i == 85 {
        "sunt"
    } else if i == 86 {
        "signa"
    } else {
        "consuetudium"
    }
}

/// The `i`-th word of generated placeholder text: entry `i mod 88` of the
/// fixed list.
pub open spec fn lorem_word(i: int) -> Seq<char> {
    word_table()[i % 88]
}

/// The first `n` placeholder words in order.
pub open spec fn lorem_words(n: nat) -> Seq<Seq<char>> {
    Seq::new(n, |i: int| lorem_word(i))
}

/// Words joined with a single space between neighbours.
pub open spec fn spec_join_space(ws: Seq<Seq<char>>) -> Seq<char>
    decreases ws.len(),
{
    if ws.len() == 0 {
        Seq::empty()
    } else if ws.len() == 1 {
        ws[0]
    } else {
        spec_join_space(ws.drop_last()) + " "@ + ws.last()
    }
}

/// The placeholder text of `n` words.
pub open spec fn spec_lorem(n: nat) -> Seq<char> {
    spec_join_space(lorem_words(n))
}

/// Generates placeholder text of exactly `word_count` words.
pub fn generate_lorem_ipsum(word_count: usize) -> (r: String)
    ensures
        r@ == spec_lorem(word_count as nat),
{
    let mut out = String::new();
    let mut i: usize = 0;
    while i < word_count
        invariant
            0 <= i <= word_count,
            out@ == spec_lorem(i as nat),
        decreases word_count - i,
    {
        if i > 0 {
            out.append(" ");
        }
        let w = nth_word(i % 88);
        out.append(w);
        proof {
            assert(lorem_words((i + 1) as nat).drop_last() =~= lorem_words(i as nat));
            assert(lorem_words((i + 1) as nat).last() == lorem_word(i as int));
            assert(out@ =~= spec_lorem((i + 1) as nat));
        }
        i += 1;
    }
    out
}

/// Law: the generated text is fully determined by the word count alone; it is
/// the space-joined sequence of exactly `n` words, the `i`-th being entry
/// `i mod 88` of the fixed word list.
pub proof fn lemma_lorem_structure(n: nat)
    ensures
        word_table().len() == 88,
        lorem_words(n).len() == n,
        forall|i: int| 0 <= i < n ==> lorem_words(n)[i] == word_table()[i % 88],
        spec_lorem(n) == spec_join_space(lorem_words(n)),
        spec_lorem(0) == Seq::<char>::empty(),
{
    assert(lorem_words(0) =~= Seq::<Seq<char>>::empty());
}

/// Law: every entry of the fixed word list is nonempty and holds no
/// space, so the space-joined placeholder text decomposes back into
/// exactly the generated words.
pub proof fn lemma_word_table_wellformed(i: int)
    requires
        0 <= i < 88,
    ensures
        word_table()[i].len() > 0,
        forall|j: int| 0 <= j < word_table()[i].len() ==> word_table()[i][j] != ' ',
{
    reveal_strlit("ac");
    reveal_strlit("ad");
    reveal_strlit("adipiscing");
    reveal_strlit("aliqua");
    reveal_strlit("aliquip");
    reveal_strlit("amet");
    reveal_strlit("anim");
    reveal_strlit("aute");
    reveal_strlit("cillum");
    reveal_strlit("commodo");
    reveal_strlit("consectetur");
    reveal_strlit("consequat");
    reveal_strlit("consuetudium");
    reveal_strlit("culpa");
    reveal_strlit("cupidatat");
    reveal_strlit("deserunt");
    reveal_strlit("do");
    reveal_strlit("dolor");
    reveal_strlit("dolore");
    reveal_strlit("duis");
    reveal_strlit("ea");
    reveal_strlit("egestas");
    reveal_strlit("eiusmod");
    reveal_strlit("elit");
    reveal_strlit("enim");
    reveal_strlit("esse");
    reveal_strlit("est");
    reveal_strlit("et");
    reveal_strlit("ex");
    reveal_strlit("excepteur");
    reveal_strlit("exercitation");
    reveal_strlit("fames");
    reveal_strlit("feugiat");
    reveal_strlit("fugiat");
    reveal_strlit("habitant");
    reveal_strlit("id");
    reveal_strlit("in");
    reveal_strlit("incididunt");
    reveal_strlit("ipsum");
    reveal_strlit("irure");
    reveal_strlit("labore");
    reveal_strlit("laboris");
    reveal_strlit("laborum");
    reveal_strlit("legimus");
    reveal_strlit("lorem");
    reveal_strlit("magna");
    reveal_strlit("malesuada");
    reveal_strlit("minim");
    reveal_strlit("mollit");
    reveal_strlit("morbi");
    reveal_strlit("netus");
    reveal_strlit("nisi");
    reveal_strlit("non");
    reveal_strlit("nostrud");
    reveal_strlit("nulla");
    reveal_strlit("nusquam");
    reveal_strlit("occaecat");
    reveal_strlit("officia");
    reveal_strlit("pariatur");
    reveal_strlit("pellentesque");
    reveal_strlit("proident");
    reveal_strlit("quam");
    reveal_strlit("qui");
    reveal_strlit("quis");
    reveal_strlit("reprehenderit");
    reveal_strlit("sed");
    reveal_strlit("senectus");
    reveal_strlit("signa");
    reveal_strlit("sint");
    reveal_strlit("sit");
    reveal_strlit("sunt");
    reveal_strlit("tempor");
    reveal_strlit("tortor");
    reveal_strlit("tristique");
    reveal_strlit("turpis");
    reveal_strlit("typi");
    reveal_strlit("ullamco");
    reveal_strlit("ultricies");
    reveal_strlit("ut");
    reveal_strlit("velit");
    reveal_strlit("veniam");
    reveal_strlit("vestibulum");
    reveal_strlit("vici");
    reveal_strlit("vitae");
    reveal_strlit("voluptate");
    if i == 0 {
        assert(word_table()[0] == "lorem"@);
    } else if i == 1 {
        assert(word_table()[1] == "ipsum"@);
    } else if i == 2 {
        assert(word_table()[2] == "dolor"@);
    } else if i == 3 {
        assert(word_table()[3] == "sit"@);
    } else if i == 4 {
        assert(word_table()[4] == "amet"@);
    } else if i == 5 {
        assert(word_table()[5] == "consectetur"@);
    } else if i == 6 {
        assert(word_table()[6] == "adipiscing"@);
    } else if i == 7 {
        assert(word_table()[7] == "elit"@);
    } else if i == 8 {
        assert(word_table()[8] == "sed"@);
    } else if i == 9 {
        assert(word_table()[9] == "do"@);
    } else if i == 10 {
        assert(word_table()[10] == "eiusmod"@);
    } else if i == 11 {
        assert(word_table()[11] == "tempor"@);
    } else if i == 12 {
        assert(word_table()[12] == "incididunt"@);
    } else if i == 13 {
        assert(word_table()[13] == "ut"@);
    } else if i == 14 {
        assert(word_table()[14] == "labore"@);
    } else if i == 15 {
        assert(word_table()[15] == "et"@);
    } else if i == 16 {
        assert(word_table()[16] == "dolore"@);
    } else if i == 17 {
        assert(word_table()[17] == "magna"@);
    } else if i == 18 {
        assert(word_table()[18] == "aliqua"@);
    } else if i == 19 {
        assert(word_table()[19] == "enim"@);
    } else if i == 20 {
        assert(word_table()[20] == "ad"@);
    } else if i == 21 {
        assert(word_table()[21] == "minim"@);
    } else if i == 22 {
        assert(word_table()[22] == "veniam"@);
    } else if i == 23 {
        assert(word_table()[23] == "quis"@);
    } else if i == 24 {
        assert(word_table()[24] == "nostrud"@);
    } else if i == 25 {
        assert(word_table()[25] == "exercitation"@);
    } else if i == 26 {
        assert(word_table()[26] == "ullamco"@);
    } else if i == 27 {
        assert(word_table()[27] == "laboris"@);
    } else if i == 28 {
        assert(word_table()[28] == "nisi"@);
    } else if i == 29 {
        assert(word_table()[29] == "aliquip"@);
    } else if i == 30 {
        assert(word_table()[30] == "ex"@);
    } else if i == 31 {
        assert(word_table()[31] == "ea"@);
    } else if i == 32 {
        assert(word_table()[32] == "commodo"@);
    } else if i == 33 {
        assert(word_table()[33] == "consequat"@);
    } else if i == 34 {
        assert(word_table()[34] == "duis"@);
    } else if i == 35 {
        assert(word_table()[35] == "aute"@);
    } else if i == 36 {
        assert(word_table()[36] == "irure"@);
    } else if i == 37 {
        assert(word_table()[37] == "in"@);
    } else if i == 38 {
        assert(word_table()[38] == "reprehenderit"@);
    } else if i == 39 {
        assert(word_table()[39] == "voluptate"@);
    } else if i == 40 {
        assert(word_table()[40] == "velit"@);
    } else if i == 41 {
        assert(word_table()[41] == "esse"@);
    } else if i == 42 {
        assert(word_table()[42] == "cillum"@);
    } else if i == 43 {
        assert(word_table()[43] == "fugiat"@);
    } else if i == 44 {
        assert(word_table()[44] == "nulla"@);
    } else if i == 45 {
        assert(word_table()[45] == "pariatur"@);
    } else if i == 46 {
        assert(word_table()[46] == "excepteur"@);
    } else if i == 47 {
        assert(word_table()[47] == "sint"@);
    } else if i == 48 {
        assert(word_table()[48] == "occaecat"@);
    } else if i == 49 {
        assert(word_table()[49] == "cupidatat"@);
    } else if i == 50 {
        assert(word_table()[50] == "non"@);
    } else if i == 51 {
        assert(word_table()[51] == "proident"@);
    } else if i == 52 {
        assert(word_table()[52] == "sunt"@);
    } else if i == 53 {
        assert(word_table()[53] == "culpa"@);
    } else if i == 54 {
        assert(word_table()[54] == "qui"@);
    } else if i == 55 {
        assert(word_table()[55] == "officia"@);
    } else if i == 56 {
        assert(word_table()[56] == "deserunt"@);
    } else if i == 57 {
        assert(word_table()[57] == "mollit"@);
    } else if i == 58 {
        assert(word_table()[58] == "anim"@);
    } else if i == 59 {
        assert(word_table()[59] == "id"@);
    } else if i == 60 {
        assert(word_table()[60] == "est"@);
    } else if i == 61 {
        assert(word_table()[61] == "laborum"@);
    } else if i == 62 {
        assert(word_table()[62] == "pellentesque"@);
    } else if i == 63 {
        assert(word_table()[63] == "habitant"@);
    } else if i == 64 {
        assert(word_table()[64] == "morbi"@);
    } else if i == 65 {
        assert(word_table()[65] == "tristique"@);
    } else if i == 66 {
        assert(word_table()[66] == "senectus"@);
    } else if i == 67 {
        assert(word_table()[67] == "netus"@);
    } else if i == 68 {
        assert(word_table()[68] == "et"@);
    } else if i == 69 {
        assert(word_table()[69] == "malesuada"@);
    } else if i == 70 {
        assert(word_table()[70] == "fames"@);
    } else if i == 71 {
        assert(word_table()[71] == "ac"@);
    } else if i == 72 {
        assert(word_table()[72] == "turpis"@);
    } else if i == 73 {
        assert(word_table()[73] == "egestas"@);
    } else if i == 74 {
        assert(word_table()[74] == "vestibulum"@);
    } else if i == 75 {
        assert(word_table()[75] == "tortor"@);
    } else if i == 76 {
        assert(word_table()[76] == "quam"@);
    } else if i == 77 {
        assert(word_table()[77] == "feugiat"@);
    } else if i == 78 {
        assert(word_table()[78] == "vitae"@);
    } else if i == 79 {
        assert(word_table()[79] == "ultricies"@);
    } else if i == 80 {
        assert(word_table()[80] == "legimus"@);
    } else if i == 81 {
        assert(word_table()[81] == "typi"@);
    } else if i == 82 {
        assert(word_table()[82] == "qui"@);
    } else if i == 83 {
        assert(word_table()[83] == "nusquam"@);
    } else if i == 84 {
        assert(word_table()[84] == "vici"@);
    } else if i == 85 {
        assert(word_table()[85] == "sunt"@);
    } else if i == 86 {
        assert(word_table()[86] == "signa"@);
    } else {
        assert(word_table()[87] == "consuetudium"@);
    }
}
/// The position of the last space in a text, `-1` when it has none.
pub open spec fn last_space(s: Seq<char>) -> int
    decreases s.len(),
{
    if s.len() == 0 {
        -1
    } else if s.last() == ' ' {
        s.len() - 1
    } else {
        last_space(s.drop_last())
    }
}

/// A text split at every space, last piece first peeled: `""` gives one
/// empty word, a space-free text gives itself as its only word.
pub open spec fn spec_split_spaces(s: Seq<char>) -> Seq<Seq<char>>
    decreases s.len(),
    via spec_split_spaces_decreases
{
    let k = last_space(s);
    if k < 0 {
        seq![s]
    } else {
        spec_split_spaces(s.take(k)).push(s.skip(k + 1))
    }
}

proof fn lemma_last_space_bound(s: Seq<char>)
    ensures
        -1 <= last_space(s) < s.len(),
    decreases s.len(),
{
    if s.len() > 0 && s.last() != ' ' {
        lemma_last_space_bound(s.drop_last());
    }
}

#[via_fn]
proof fn spec_split_spaces_decreases(s: Seq<char>) {
    lemma_last_space_bound(s);
}

/// A sequence of words none of which holds a space.
pub open spec fn space_free(ws: Seq<Seq<char>>) -> bool {
    forall|i: int, j: int|
        0 <= i < ws.len() && 0 <= j < ws[i].len() ==> #[trigger] ws[i][j] != ' '
}

proof fn lemma_last_space_none(s: Seq<char>)
    requires
        forall|j: int| 0 <= j < s.len() ==> s[j] != ' ',
    ensures
        last_space(s) == -1,
    decreases s.len(),
{
    if s.len() > 0 {
        lemma_last_space_none(s.drop_last());
    }
}

proof fn lemma_last_space_append_space_free(s: Seq<char>, t: Seq<char>)
    requires
        forall|j: int| 0 <= j < t.len() ==> t[j] != ' ',
    ensures
        last_space(s + t) == last_space(s),
    decreases t.len(),
{
    if t.len() == 0 {
        assert(s + t =~= s);
    } else {
        assert((s + t).drop_last() =~= s + t.drop_last());
        assert((s + t).last() == t.last());
        lemma_last_space_append_space_free(s, t.drop_last());
    }
}

/// Law: joining space-free words with single spaces and splitting at the
/// spaces gives the words back unchanged.
pub proof fn lemma_split_inverts_join(ws: Seq<Seq<char>>)
    requires
        ws.len() > 0,
        space_free(ws),
    ensures
        spec_split_spaces(spec_join_space(ws)) == ws,
    decreases ws.len(),
{
    let s = spec_join_space(ws);
    if ws.len() == 1 {
        assert(forall|j: int| 0 <= j < s.len() ==> s[j] != ' ');
        lemma_last_space_none(s);
        assert(spec_split_spaces(s) =~= ws);
    } else {
        let front = spec_join_space(ws.drop_last());
        let w = ws.last();
        assert(s == front + " "@ + w);
        assert(forall|j: int| 0 <= j < w.len() ==> w[j] != ' ');
        lemma_last_space_append_space_free(front + " "@, w);
        reveal_strlit(" ");
        assert((front + " "@).last() == ' ');
        assert(last_space(front + " "@) == front.len());
        assert(last_space(s) == front.len());
        assert(s.take(front.len() as int) =~= front);
        assert(s.skip(front.len() as int + 1) =~= w);
        assert(space_free(ws.drop_last()));
        lemma_split_inverts_join(ws.drop_last());
        assert(spec_split_spaces(s) =~= ws);
    }
}

/// Law: for any positive count, the placeholder text splits at its spaces
/// into exactly that many words, the `i`-th being entry `i mod 88` of the
/// fixed word list. (The text of zero words is empty.)
pub proof fn lemma_lorem_splits_into_words(n: nat)
    requires
        n > 0,
    ensures
        spec_split_spaces(spec_lorem(n)).len() == n,
        forall|i: int|
            0 <= i < n ==> spec_split_spaces(spec_lorem(n))[i] == word_table()[i % 88],
{
    let ws = lorem_words(n);
    assert forall|i: int, j: int|
        0 <= i < ws.len() && 0 <= j < ws[i].len() implies #[trigger] ws[i][j] != ' ' by {
        lemma_word_table_wellformed(i % 88);
    }
    lemma_split_inverts_join(ws);
}

} // verus!
