//! The table of translations: how a language file is read, and how a text
//! is looked up in it.

use vstd::prelude::*;
use vstd::string::*;
use crate::text::lemma_split_has_a_piece;
use crate::text::split;
use crate::text::split_text;
use crate::text::views;

verus! {

/// A language of the user interface.
#[derive(Debug, PartialEq, Eq, Structural, Clone, Copy)]
pub enum Lang {
    En,
    Cn,
}

impl Lang {
    /// The name of the file that holds the translations into this language.
    pub fn file(&self) -> (r: String)
        ensures
            r@ == (match *self {
                Lang::En => "en.lang"@,
                Lang::Cn => "zh-cn.lang"@,
            }),
    {
        match self {
            Lang::En => "en.lang".to_owned(),
            Lang::Cn => "zh-cn.lang".to_owned(),
        }
    }
}

/// The entry that one line of a language file stands for: the text before
/// the first colon, and the text between the first colon and the second, or
/// to the end of the line where there is no second. A line without a colon
/// stands for a text without translation.
pub open spec fn entry_of(line: Seq<char>) -> (Seq<char>, Seq<char>) {
    let parts = split_text(line, ":"@);
    (
        parts[0],
        if parts.len() == 1 {
            Seq::empty()
        } else {
            parts[1]
        },
    )
}

/// The entries of a language file, one for each of its lines; lines end in
/// a carriage return and a line feed.
pub open spec fn entries_of(data: Seq<char>) -> Seq<(Seq<char>, Seq<char>)> {
    split_text(data, "\r\n"@).map_values(|line: Seq<char>| entry_of(line))
}

/// The table that a list of entries makes: a later entry replaces an
/// earlier one for the same text.
pub open spec fn table_of(entries: Seq<(Seq<char>, Seq<char>)>) -> Map<Seq<char>, Seq<char>>
    decreases entries.len(),
{
    if entries.len() == 0 {
        Map::empty()
    } else {
        table_of(entries.drop_last()).insert(entries.last().0, entries.last().1)
    }
}

/// What a text is shown as: its translation, where the table has one that
/// is not empty, and the text itself otherwise.
pub open spec fn translated(table: Map<Seq<char>, Seq<char>>, text: Seq<char>) -> Seq<char> {
    if table.contains_key(text) && table[text].len() > 0 {
        table[text]
    } else {
        text
    }
}

/// The views of a list of entries.
pub open spec fn pair_views(s: Seq<(String, String)>) -> Seq<(Seq<char>, Seq<char>)> {
    s.map_values(|e: (String, String)| (e.0@, e.1@))
}

/// Reads the entries of a language file.
pub fn load_data(data: &str) -> (r: Vec<(String, String)>)
    ensures
        pair_views(r@) == entries_of(data@),
{
    let lines = split(data, "\r\n");
    let ghost all = views(lines@);
    let mut out: Vec<(String, String)> = Vec::new();
    let mut i: usize = 0;
    while i < lines.len()
        invariant
            i <= lines.len(),
            all == views(lines@),
            pair_views(out@) =~= all.take(i as int).map_values(|line: Seq<char>| entry_of(line)),
        decreases lines.len() - i,
    {
        let ghost before = out@;
        let parts = split(lines[i].as_str(), ":");
        proof {
            lemma_split_has_a_piece(lines@[i as int]@, ":"@);
        }
        let key = parts[0].clone();
        let value = if parts.len() == 1 {
            String::new()
        } else {
            parts[1].clone()
        };
        out.push((key, value));
        assert(pair_views(out@) =~= pair_views(before).push(entry_of(all[i as int])));
        i += 1;
    }
    assert(all.take(lines.len() as int) =~= all);
    out
}

/// The table of translations of one language.
#[derive(Debug)]
pub struct Translator {
    entries: Vec<(String, String)>,
    lang: Lang,
}

/// Mathematical model of a [`Translator`].
#[verifier::ext_equal]
pub struct TranslatorView {
    pub table: Map<Seq<char>, Seq<char>>,
    pub lang: Lang,
}

impl View for Translator {
    type V = TranslatorView;

    closed spec fn view(&self) -> TranslatorView {
        TranslatorView { table: table_of(pair_views(self.entries@)), lang: self.lang }
    }
}

impl Default for Translator {
    /// The empty table, for Chinese.
    fn default() -> (r: Self)
        ensures
            r@ == (TranslatorView { table: Map::empty(), lang: Lang::Cn }),
    {
        let r = Translator { entries: Vec::new(), lang: Lang::Cn };
        assert(pair_views(r.entries@) =~= Seq::empty());
        r
    }
}

impl Translator {
    /// The language of the table.
    pub fn lang(&self) -> (r: Lang)
        ensures
            r == self@.lang,
    {
        self.lang
    }

    /// The place of the last entry for `key`.
    fn lookup(&self, key: &str) -> (r: Option<usize>)
        ensures
            match r {
                Some(k) => k < self.entries@.len() && self@.table.contains_key(key@)
                    && self@.table[key@] == self.entries@[k as int].1@,
                None => !self@.table.contains_key(key@),
            },
    {
        let wanted = key.to_owned();
        let ghost all = pair_views(self.entries@);
        let mut i: usize = self.entries.len();
        assert(all.take(i as int) =~= all);
        while i > 0
            invariant
                i <= self.entries.len(),
                wanted@ == key@,
                all == pair_views(self.entries@),
                table_of(all).contains_key(key@) == table_of(all.take(i as int)).contains_key(
                    key@,
                ),
                table_of(all).contains_key(key@) ==> table_of(all)[key@] == table_of(
                    all.take(i as int),
                )[key@],
            decreases i,
        {
            let ghost seen = all.take(i as int);
            assert(seen.drop_last() =~= all.take(i - 1));
            assert(seen.last() == all[i - 1]);
            i -= 1;
            if self.entries[i].0 == wanted {
                return Some(i);
            }
        }
        None
    }

    /// What `text` is shown as in this language.
    pub fn get<'a>(&'a self, text: &'a str) -> (r: &'a str)
        ensures
            r@ == translated(self@.table, text@),
    {
        match self.lookup(text) {
            None => text,
            Some(k) => {
                let value = self.entries[k].1.as_str();
                if value.unicode_len() == 0 {
                    text
                } else {
                    value
                }
            },
        }
    }

    /// Changes the language: the table becomes that of the language file
    /// whose content is `data`.
    pub fn change(&mut self, lang: &Lang, data: &str)
        ensures
            final(self)@ == (TranslatorView { table: table_of(entries_of(data@)), lang: *lang }),
    {
        self.entries = load_data(data);
        self.lang = *lang;
    }
}

} // verus!
