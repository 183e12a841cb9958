//! Rendering a moment as one line of Braille glyphs, field by field.
use vstd::prelude::*;
use vstd::string::StringExecFns;
use crate::config::{tokens, ClockConfig};
use crate::glyph::{glyph, glyph_code, year_2digit, year_digits};
use crate::instant::{offset_of_text, resolve, utc, Moment};

verus! {

/// The fields of a moment that a token can name.
#[derive(Clone, Copy, Debug, PartialEq, Eq, Structural)]
pub enum Field {
    Year,
    Month,
    Day,
    Hour,
    Minute,
    Second,
}

/// The field that a token names, if it names one.
pub open spec fn field_named(tok: Seq<char>) -> Option<Field> {
    if tok == "year"@ {
        Some(Field::Year)
    } else if tok == "month"@ {
        Some(Field::Month)
    } else if tok == "day"@ {
        Some(Field::Day)
    } else if tok == "hour"@ {
        Some(Field::Hour)
    } else if tok == "minute"@ {
        Some(Field::Minute)
    } else if tok == "second"@ {
        Some(Field::Second)
    } else {
        None
    }
}

/// The codepoints of a text.
pub open spec fn codes(s: Seq<char>) -> Seq<int> {
    s.map_values(|c: char| c as int)
}

/// What one token of a field order contributes to a line, as codepoints:
/// a shown date field or time field gives its glyphs (two for the year, one
/// for the others), a hidden one nothing, and any other token its own text.
pub open spec fn token_codes(m: Moment, show_date: bool, show_time: bool, tok: Seq<char>) -> Seq<int> {
    match field_named(tok) {
        Some(Field::Year) => if show_date {
            seq![glyph_code(year_digits(m.year as int).0), glyph_code(year_digits(m.year as int).1)]
        } else {
            seq![]
        },
        Some(Field::Month) => if show_date { seq![glyph_code(m.month as int)] } else { seq![] },
        Some(Field::Day) => if show_date { seq![glyph_code(m.day as int)] } else { seq![] },
        Some(Field::Hour) => if show_time { seq![glyph_code(m.hour as int)] } else { seq![] },
        Some(Field::Minute) => if show_time { seq![glyph_code(m.minute as int)] } else { seq![] },
        Some(Field::Second) => if show_time { seq![glyph_code(m.second as int)] } else { seq![] },
        None => codes(tok),
    }
}

/// The codepoints that a field order gives, token after token.
pub open spec fn fields_codes(m: Moment, show_date: bool, show_time: bool, order: Seq<Seq<char>>) -> Seq<int>
    decreases order.len(),
{
    if order.len() == 0 {
        seq![]
    } else {
        fields_codes(m, show_date, show_time, order.drop_last())
            + token_codes(m, show_date, show_time, order.last())
    }
}

/// The codepoints of the whole line shown for `m` under `config`, ending in a
/// line feed.
pub open spec fn line_codes(m: Moment, config: ClockConfig) -> Seq<int> {
    fields_codes(m, config.show_date, config.show_time, config.format.view_order()) + seq![
        '\n' as int,
    ]
}

proof fn lemma_codes_concat(a: Seq<char>, b: Seq<char>)
    ensures
        codes(a + b) == codes(a) + codes(b),
{
    assert(codes(a + b) =~= codes(a) + codes(b));
}

/// The line for two field orders one after the other is the line for the
/// first followed by the line for the second.
pub proof fn lemma_fields_codes_concat(
    m: Moment,
    show_date: bool,
    show_time: bool,
    a: Seq<Seq<char>>,
    b: Seq<Seq<char>>,
)
    ensures
        fields_codes(m, show_date, show_time, a + b) == fields_codes(m, show_date, show_time, a)
            + fields_codes(m, show_date, show_time, b),
    decreases b.len(),
{
    if b.len() == 0 {
        assert(a + b =~= a);
        assert(fields_codes(m, show_date, show_time, a) + Seq::<int>::empty() =~= fields_codes(
            m,
            show_date,
            show_time,
            a,
        ));
    } else {
        assert((a + b).drop_last() =~= a + b.drop_last());
        assert((a + b).last() == b.last());
        lemma_fields_codes_concat(m, show_date, show_time, a, b.drop_last());
        assert(fields_codes(m, show_date, show_time, a + b) =~= fields_codes(
            m,
            show_date,
            show_time,
            a,
        ) + fields_codes(m, show_date, show_time, b));
    }
}

/// A token that names no field is copied into the line as it stands, between
/// what the tokens before it and the tokens after it give.
pub proof fn lemma_literal_token_passes_through(
    m: Moment,
    show_date: bool,
    show_time: bool,
    before: Seq<Seq<char>>,
    literal: Seq<char>,
    after: Seq<Seq<char>>,
)
    requires
        field_named(literal) is None,
    ensures
        fields_codes(m, show_date, show_time, before.push(literal) + after) == fields_codes(
            m,
            show_date,
            show_time,
            before,
        ) + codes(literal) + fields_codes(m, show_date, show_time, after),
{
    lemma_fields_codes_concat(m, show_date, show_time, before.push(literal), after);
    assert(before.push(literal).drop_last() =~= before);
}

/// Relies on `String::push`: appends one character.
#[verifier::external_body]
fn push_char(s: &mut String, c: char)
    ensures
        final(s)@ == old(s)@.push(c),
{
    s.push(c);
}

fn push_glyph(out: &mut String, value: u32)
    ensures
        codes(final(out)@) == codes(old(out)@) + seq![glyph_code(value as int)],
{
    let c = glyph(value);
    push_char(out, c);
    proof {
        lemma_codes_concat(old(out)@, seq![c]);
        assert(old(out)@.push(c) == old(out)@ + seq![c]);
        assert(codes(seq![c]) =~= seq![glyph_code(value as int)]);
    }
}

/// The field that `tok` names, if any.
pub fn field_of(tok: &String) -> (r: Option<Field>)
    ensures
        r == field_named(tok@),
{
    if *tok == String::from_str("year") {
        Some(Field::Year)
    } else if *tok == String::from_str("month") {
        Some(Field::Month)
    } else if *tok == String::from_str("day") {
        Some(Field::Day)
    } else if *tok == String::from_str("hour") {
        Some(Field::Hour)
    } else if *tok == String::from_str("minute") {
        Some(Field::Minute)
    } else if *tok == String::from_str("second") {
        Some(Field::Second)
    } else {
        None
    }
}

fn push_token(out: &mut String, m: &Moment, show_date: bool, show_time: bool, tok: &String)
    ensures
        codes(final(out)@) == codes(old(out)@) + token_codes(*m, show_date, show_time, tok@),
{
    let field = field_of(tok);
    match field {
        Some(Field::Year) => {
            if show_date {
                let (tens, units) = year_2digit(m.year);
                push_glyph(out, tens);
                push_glyph(out, units);
                assert(codes(old(out)@) + seq![glyph_code(tens as int)] + seq![
                    glyph_code(units as int),
                ] =~= codes(old(out)@) + token_codes(*m, show_date, show_time, tok@));
            } else {
                assert(codes(old(out)@) =~= codes(old(out)@) + Seq::<int>::empty());
            }
        },
        Some(f) => {
            let (shown, value) = match f {
                Field::Month => (show_date, m.month as u32),
                Field::Day => (show_date, m.day as u32),
                Field::Hour => (show_time, m.hour as u32),
                Field::Minute => (show_time, m.minute as u32),
                _ => (show_time, m.second as u32),
            };
            if shown {
                push_glyph(out, value);
            } else {
                assert(codes(old(out)@) =~= codes(old(out)@) + Seq::<int>::empty());
            }
        },
        None => {
            out.append(tok.as_str());
            proof {
                lemma_codes_concat(old(out)@, tok@);
            }
        },
    }
}

/// The line shown for `now` under `config`: for each token of the field order,
/// the glyphs of a shown field, nothing for a hidden one, and the text of any
/// other token as it stands; then a line feed.
pub fn render(now: &Moment, config: &ClockConfig) -> (r: String)
    ensures
        codes(r@) == line_codes(*now, *config),
{
    let order = &config.format.order;
    let mut out = String::new();
    let mut i: usize = 0;
    while i < order.len()
        invariant
            i <= order.len(),
            order == &config.format.order,
            codes(out@) == fields_codes(
                *now,
                config.show_date,
                config.show_time,
                tokens(order@).subrange(0, i as int),
            ),
        decreases order.len() - i,
    {
        push_token(&mut out, now, config.show_date, config.show_time, &order[i]);
        proof {
            let next = tokens(order@).subrange(0, i + 1);
            assert(next.drop_last() =~= tokens(order@).subrange(0, i as int));
            assert(next.last() == order@[i as int]@);
        }
        i = i + 1;
    }
    assert(tokens(order@).subrange(0, i as int) =~= config.format.view_order());
    let ghost body = out@;
    push_char(&mut out, '\n');
    proof {
        lemma_codes_concat(body, seq!['\n']);
        assert(body.push('\n') == body + seq!['\n']);
        assert(codes(seq!['\n']) =~= seq!['\n' as int]);
    }
    out
}

/// A clock bound to a configuration, holding the moment it shows.
pub struct DotClock<'a> {
    config: &'a ClockConfig,
    now: Moment,
}

impl<'a> DotClock<'a> {
    /// The configuration this clock shows by.
    pub closed spec fn config(&self) -> ClockConfig {
        *self.config
    }

    /// The moment this clock shows.
    pub closed spec fn moment(&self) -> Moment {
        self.now
    }

    /// A clock showing the current moment in the configured offset, or in UTC
    /// when none is configured or it cannot be read.
    pub fn new(config: &'a ClockConfig) -> (r: DotClock<'a>)
        ensures
            r.config() == *config,
            r.moment().wf(),
            config.offset is None ==> r.moment().offset == utc(),
            config.offset matches Some(s) ==> {
                match offset_of_text(s@) {
                    Some(o) => r.moment().offset == o || r.moment().offset == utc(),
                    None => r.moment().offset == utc(),
                }
            },
    {
        let offset = match &config.offset {
            Some(s) => Some(s.as_str()),
            None => None,
        };
        let now = resolve(offset);
        DotClock { config, now }
    }

    /// The line this clock shows.
    pub fn display(&self) -> (r: String)
        ensures
            codes(r@) == line_codes(self.moment(), self.config()),
    {
        render(&self.now, self.config)
    }
}

} // verus!
