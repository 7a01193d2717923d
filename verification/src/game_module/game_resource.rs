use vstd::prelude::*;

verus! {

pub const GAME_DATA_DIRECTORY: &'static str = "game_data";
pub const CHARACTER_DATA_FILE_PATH: &'static str = "game_data/characters";
pub const ITEM_DATA_FILE_PATH: &'static str = "game_data/items";
pub const GAME_SCENE_FILE_PATH: &'static str = "game_data/game_scenes";
pub const PROP_DATA_FILE_PATH: &'static str = "game_data/props";
pub const SCENARIO_FILE_PATH: &'static str = "game_data/scenario";
pub const WEAPON_DATA_FILE_PATH: &'static str = "game_data/weapons";
pub const EXT_GAME_DATA: &'static str = "data";
pub const DEFAULT_GAME_DATA_NAME: &'static str = "default";

/// The bytes of a comma, a double quote and a line break.
pub const COMMA: u8 = 44;
pub const QUOTE: u8 = 34;
pub const NEWLINE: u8 = 10;

/// The first `n` bytes of a saved scene's text as they are written: a line
/// break follows every comma that a double quote follows, so that each key
/// of the text starts a line.
pub open spec fn broken_prefix(s: Seq<u8>, n: int) -> Seq<u8>
    decreases n,
{
    if n <= 0 {
        Seq::empty()
    } else {
        broken_prefix(s, n - 1) + seq![s[n - 1]] + (if s[n - 1] == COMMA && n < s.len() && s[n] == QUOTE {
            seq![NEWLINE]
        } else {
            Seq::empty()
        })
    }
}

/// The text of a saved scene as it is written.
pub open spec fn broken_json(s: Seq<u8>) -> Seq<u8> {
    broken_prefix(s, s.len() as int)
}

/// Puts each key of a saved scene's serialized text on a line of its own.
pub fn break_json_lines(json: &Vec<u8>) -> (r: Vec<u8>)
    ensures
        r@ == broken_json(json@),
{
    let mut r: Vec<u8> = Vec::new();
    let n = json.len();
    let mut i: usize = 0;
    while i < n
        invariant
            n == json@.len(),
            i <= n,
            r@ == broken_prefix(json@, i as int),
        decreases n - i,
    {
        let b = json[i];
        r.push(b);
        if b == COMMA && i + 1 < n && json[i + 1] == QUOTE {
            r.push(NEWLINE);
        }
        proof {
            assert(r@ =~= broken_prefix(json@, i + 1));
        }
        i = i + 1;
    }
    r
}

/// A text without its line breaks.
pub open spec fn without_newlines(t: Seq<u8>) -> Seq<u8>
    decreases t.len(),
{
    if t.len() == 0 {
        Seq::empty()
    } else {
        without_newlines(t.drop_last()) + (if t.last() == NEWLINE {
            Seq::empty()
        } else {
            seq![t.last()]
        })
    }
}

proof fn lemma_without_newlines_append(a: Seq<u8>, b: Seq<u8>)
    ensures
        without_newlines(a + b) == without_newlines(a) + without_newlines(b),
    decreases b.len(),
{
    if b.len() == 0 {
        assert(a + b =~= a);
        assert(without_newlines(a) + without_newlines(b) =~= without_newlines(a));
    } else {
        assert((a + b).drop_last() =~= a + b.drop_last());
        lemma_without_newlines_append(a, b.drop_last());
        assert(without_newlines(a + b) =~= without_newlines(a) + without_newlines(b));
    }
}

proof fn lemma_broken_prefix_keeps_text(s: Seq<u8>, n: int)
    requires
        0 <= n <= s.len(),
        forall|i: int| 0 <= i < s.len() ==> s[i] != NEWLINE,
    ensures
        without_newlines(broken_prefix(s, n)) == s.subrange(0, n),
    decreases n,
{
    if n == 0 {
        assert(s.subrange(0, 0) =~= Seq::<u8>::empty());
    } else {
        lemma_broken_prefix_keeps_text(s, n - 1);
        let head = broken_prefix(s, n - 1) + seq![s[n - 1]];
        let tail: Seq<u8> = if s[n - 1] == COMMA && n < s.len() && s[n] == QUOTE {
            seq![NEWLINE]
        } else {
            Seq::empty()
        };
        lemma_without_newlines_append(head, tail);
        lemma_without_newlines_append(broken_prefix(s, n - 1), seq![s[n - 1]]);
        assert(seq![s[n - 1]].drop_last() =~= Seq::<u8>::empty());
        assert(without_newlines(Seq::<u8>::empty()) =~= Seq::<u8>::empty());
        if tail.len() == 1 {
            assert(tail.drop_last() =~= Seq::<u8>::empty());
            assert(tail.last() == NEWLINE);
            assert(without_newlines(tail) == without_newlines(tail.drop_last()) + Seq::<u8>::empty());
        } else {
            assert(tail =~= Seq::<u8>::empty());
        }
        assert(without_newlines(tail) =~= Seq::<u8>::empty());
        assert(s.subrange(0, n) =~= s.subrange(0, n - 1) + seq![s[n - 1]]);
    }
}

/// Breaking the lines of a text that had none changes nothing else: taking
/// the line breaks out again gives the text back.
pub proof fn lemma_break_json_lines_keeps_text(s: Seq<u8>)
    requires
        forall|i: int| 0 <= i < s.len() ==> s[i] != NEWLINE,
    ensures
        without_newlines(broken_json(s)) == s,
{
    lemma_broken_prefix_keeps_text(s, s.len() as int);
    assert(s.subrange(0, s.len() as int) =~= s);
}

} // verus!
