//! The resolved display configuration and how command-line choices override it.
use vstd::prelude::*;
use vstd::string::StringExecFns;

verus! {

/// Choices given on the command line; `None` leaves the configured value.
pub struct Args {
    pub mode: Option<String>,
    pub once: bool,
    pub show_date: Option<bool>,
    pub show_time: Option<bool>,
    pub offset: Option<String>,
}

/// The fields in the order they are shown when none is configured.
pub open spec fn default_order_spec() -> Seq<Seq<char>> {
    seq!["year"@, "month"@, "day"@, "hour"@, "minute"@, "second"@]
}

/// The text of each token of a field order.
pub open spec fn tokens(v: Seq<String>) -> Seq<Seq<char>> {
    v.map_values(|s: String| s@)
}

/// The order of fields and literal tokens on a clock line.
pub struct Format {
    pub order: Vec<String>,
}

impl Format {
    /// A field order is never empty.
    pub open spec fn wf(&self) -> bool {
        self.order@.len() > 0
    }

    pub open spec fn view_order(&self) -> Seq<Seq<char>> {
        tokens(self.order@)
    }

    /// A format showing `order`, or the default order when `order` is empty.
    pub fn new(order: Vec<String>) -> (r: Format)
        ensures
            r.wf(),
            r.view_order() == order_or_default_spec(tokens(order@)),
    {
        Format { order: order_or_default(order) }
    }

    /// A copy of this format.
    pub fn duplicate(&self) -> (r: Format)
        ensures
            r.view_order() == self.view_order(),
            r.order@.len() == self.order@.len(),
    {
        let order = clone_order(&self.order);
        assert(order@.len() == tokens(order@).len());
        Format { order }
    }
}

impl Default for Format {
    fn default() -> (r: Format)
        ensures
            r.wf(),
            r.view_order() == default_order_spec(),
    {
        Format { order: default_order() }
    }
}

/// `order`, or the default order in its place when it is empty.
pub open spec fn order_or_default_spec(order: Seq<Seq<char>>) -> Seq<Seq<char>> {
    if order.len() == 0 {
        default_order_spec()
    } else {
        order
    }
}

/// The default order of fields: year, month, day, hour, minute, second.
pub fn default_order() -> (r: Vec<String>)
    ensures
        r@.len() == 6,
        tokens(r@) == default_order_spec(),
{
    let r = vec![
        String::from_str("year"),
        String::from_str("month"),
        String::from_str("day"),
        String::from_str("hour"),
        String::from_str("minute"),
        String::from_str("second"),
    ];
    assert(tokens(r@) =~= default_order_spec());
    r
}

/// A configured field order, replaced by the default one when it is empty.
pub fn order_or_default(order: Vec<String>) -> (r: Vec<String>)
    ensures
        r@.len() > 0,
        tokens(r@) == order_or_default_spec(tokens(order@)),
{
    if order.len() == 0 {
        default_order()
    } else {
        order
    }
}

fn clone_order(order: &Vec<String>) -> (r: Vec<String>)
    ensures
        tokens(r@) == tokens(order@),
{
    let mut r: Vec<String> = Vec::new();
    let mut i: usize = 0;
    while i < order.len()
        invariant
            i <= order.len(),
            r@.len() == i,
            forall|j: int| 0 <= j < i ==> #[trigger] r@[j]@ == order@[j]@,
        decreases order.len() - i,
    {
        let s = order[i].clone();
        r.push(s);
        i = i + 1;
    }
    assert(tokens(r@) =~= tokens(order@));
    r
}

/// Dates and times are shown unless configured otherwise.
pub fn default_true() -> (r: bool)
    ensures
        r,
{
    true
}

/// The mode run when none is configured.
pub fn default_mode() -> (r: String)
    ensures
        r@ == "cli"@,
{
    String::from_str("cli")
}

/// What a clock run shows, and how.
pub struct ClockConfig {
    pub format: Format,
    pub show_date: bool,
    pub show_time: bool,
    pub offset: Option<String>,
    pub mode: String,
}

pub open spec fn opt_view(o: Option<String>) -> Option<Seq<char>> {
    match o {
        Some(s) => Some(s@),
        None => None,
    }
}

fn clone_opt(o: &Option<String>) -> (r: Option<String>)
    ensures
        opt_view(r) == opt_view(*o),
{
    match o {
        Some(s) => Some(s.clone()),
        None => None,
    }
}

impl ClockConfig {
    pub open spec fn wf(&self) -> bool {
        self.format.wf()
    }

    /// This configuration with each choice given in `args` taking the place of
    /// the configured one.
    pub fn merge_args(&self, args: &Args) -> (r: ClockConfig)
        ensures
            r.show_date == match args.show_date {
                Some(b) => b,
                None => self.show_date,
            },
            r.show_time == match args.show_time {
                Some(b) => b,
                None => self.show_time,
            },
            opt_view(r.offset) == match args.offset {
                Some(s) => Some(s@),
                None => opt_view(self.offset),
            },
            r.mode@ == match args.mode {
                Some(s) => s@,
                None => self.mode@,
            },
            r.format.view_order() == self.format.view_order(),
            self.wf() ==> r.wf(),
    {
        let show_date = match args.show_date {
            Some(b) => b,
            None => self.show_date,
        };
        let show_time = match args.show_time {
            Some(b) => b,
            None => self.show_time,
        };
        let offset = match &args.offset {
            Some(s) => Some(s.clone()),
            None => clone_opt(&self.offset),
        };
        let mode = match &args.mode {
            Some(s) => s.clone(),
            None => self.mode.clone(),
        };
        ClockConfig { format: self.format.duplicate(), show_date, show_time, offset, mode }
    }
}

impl Default for ClockConfig {
    /// The configuration written when none exists: every field shown in the
    /// default order, in UTC, in the command-line mode.
    fn default() -> (r: ClockConfig)
        ensures
            r.wf(),
            r.format.view_order() == default_order_spec(),
            r.show_date,
            r.show_time,
            r.offset is None,
            r.mode@ == "cli"@,
    {
        ClockConfig {
            format: Format::default(),
            show_date: default_true(),
            show_time: default_true(),
            offset: None,
            mode: default_mode(),
        }
    }
}

/// The ways the clock can be shown.
#[derive(Clone, Copy, Debug, PartialEq, Eq, Structural)]
pub enum Mode {
    /// One line of glyphs per tick on standard output.
    Cli,
    /// A full-screen display, not yet available.
    Tui,
}

/// The mode that a configured mode name selects: `cli` the line display,
/// `tui` the full-screen display, and any other name none.
pub fn mode_of(name: &String) -> (r: Option<Mode>)
    ensures
        r == Some(Mode::Cli) <==> name@ == "cli"@,
        r == Some(Mode::Tui) <==> name@ == "tui"@,
        r is None <==> name@ != "cli"@ && name@ != "tui"@,
{
    proof {
        reveal_strlit("cli");
        reveal_strlit("tui");
        assert("cli"@[0] != "tui"@[0]);
    }
    if *name == String::from_str("cli") {
        Some(Mode::Cli)
    } else if *name == String::from_str("tui") {
        Some(Mode::Tui)
    } else {
        None
    }
}

} // verus!
