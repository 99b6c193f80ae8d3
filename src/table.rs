use vstd::prelude::*;
use vstd::string::*;
use crate::service::Service;

verus! {

/// Rows of text under fixed headers, with at most one selected row.
pub struct TableState {
    pub headers: Vec<&'static str>,
    pub rows: Vec<Vec<String>>,
    pub selected: Option<usize>,
}

impl TableState {
    /// A table with these headers, no rows and no selection.
    pub fn new(headers: Vec<&'static str>) -> (r: TableState)
        ensures
            r.headers == headers,
            r.rows@.len() == 0,
            r.selected is None,
    {
        TableState { headers, rows: Vec::new(), selected: None }
    }

    /// Appends the row when it has one cell per header; returns whether it did.
    pub fn add_row(&mut self, row: Vec<String>) -> (r: bool)
        ensures
            r == (row@.len() == old(self).headers@.len()),
            r ==> final(self).rows@ == old(self).rows@.push(row),
            !r ==> final(self).rows == old(self).rows,
            final(self).headers == old(self).headers,
            final(self).selected == old(self).selected,
    {
        if row.len() == self.headers.len() {
            self.rows.push(row);
            true
        } else {
            false
        }
    }

    /// Selects the row below, going round to the first after the last.
    /// Without a selection the first row is selected.
    pub fn next(&mut self)
        requires
            old(self).selected is Some ==> old(self).rows@.len() > 0,
        ensures
            final(self).headers == old(self).headers,
            final(self).rows == old(self).rows,
            old(self).selected is None ==> final(self).selected == Some(0usize),
            old(self).selected matches Some(i) ==> final(self).selected == Some(
                if i >= old(self).rows@.len() - 1 {
                    0usize
                } else {
                    (i + 1) as usize
                },
            ),
    {
        let i: usize = match self.selected {
            Some(i) => {
                if i >= self.rows.len() - 1 {
                    0
                } else {
                    i + 1
                }
            },
            None => 0,
        };
        self.selected = Some(i);
    }

    /// Selects the row above, going round to the last before the first.
    /// Without a selection the first row is selected.
    pub fn previous(&mut self)
        requires
            old(self).selected is Some ==> old(self).rows@.len() > 0,
        ensures
            final(self).headers == old(self).headers,
            final(self).rows == old(self).rows,
            old(self).selected is None ==> final(self).selected == Some(0usize),
            old(self).selected matches Some(i) ==> final(self).selected == Some(
                if i == 0 {
                    (old(self).rows@.len() - 1) as usize
                } else {
                    (i - 1) as usize
                },
            ),
    {
        let i: usize = match self.selected {
            Some(i) => {
                if i == 0 {
                    self.rows.len() - 1
                } else {
                    i - 1
                }
            },
            None => 0,
        };
        self.selected = Some(i);
    }
}

/// The character of a decimal digit.
pub open spec fn digit_char(d: nat) -> char {
    if d == 0 {
        '0'
    } else if d == 1 {
        '1'
    } else if d == 2 {
        '2'
    } else if d == 3 {
        '3'
    } else if d == 4 {
        '4'
    } else if d == 5 {
        '5'
    } else if d == 6 {
        '6'
    } else if d == 7 {
        '7'
    } else if d == 8 {
        '8'
    } else {
        '9'
    }
}

/// A number written in decimal, without sign or leading zeros.
pub open spec fn decimal(n: nat) -> Seq<char>
    decreases n,
{
    if n < 10 {
        seq![digit_char(n)]
    } else {
        decimal(n / 10).push(digit_char(n % 10))
    }
}

/// Relies on the `Display` of `usize`, which writes the number in decimal.
#[verifier::external_body]
fn id_text(n: usize) -> (r: String)
    ensures
        r@ == decimal(n as nat),
{
    n.to_string()
}

/// The text of a command cell: the command, or a dash where there is none.
pub open spec fn command_cell(c: Option<String>) -> Seq<char> {
    match c {
        Some(t) => t@,
        None => "-"@,
    }
}

/// The cells that show a service: id, name and the three commands.
pub open spec fn row_of(s: Service) -> Seq<Seq<char>> {
    seq![
        decimal(s.id as nat),
        s.name@,
        command_cell(s.start_command),
        command_cell(s.stop_command),
        command_cell(s.restart_command),
    ]
}

fn command_text(c: &Option<String>) -> (r: String)
    ensures
        r@ == command_cell(*c),
{
    match c {
        Some(t) => t.clone(),
        None => String::from_str("-"),
    }
}

/// The row that shows a service under the headers ID, Name, Start, Stop, Restart.
pub fn service_row(s: &Service) -> (r: Vec<String>)
    ensures
        r@.len() == 5,
        forall|i: int| 0 <= i < 5 ==> (#[trigger] r@[i])@ == row_of(*s)[i],
{
    let mut r: Vec<String> = Vec::new();
    r.push(id_text(s.id));
    r.push(s.name.clone());
    r.push(command_text(&s.start_command));
    r.push(command_text(&s.stop_command));
    r.push(command_text(&s.restart_command));
    r
}

/// The headers of the services table.
pub fn service_headers() -> (r: Vec<&'static str>)
    ensures
        r@.len() == 5,
        r@[0]@ == "ID"@,
        r@[1]@ == "Name"@,
        r@[2]@ == "Start"@,
        r@[3]@ == "Stop"@,
        r@[4]@ == "Restart"@,
{
    let mut r: Vec<&'static str> = Vec::new();
    r.push("ID");
    r.push("Name");
    r.push("Start");
    r.push("Stop");
    r.push("Restart");
    r
}

/// The services table: one row per service, in their order, nothing selected.
pub fn services_table(services: &Vec<Service>) -> (r: TableState)
    ensures
        r.headers@.len() == 5,
        r.rows@.len() == services@.len(),
        forall|k: int, i: int|
            0 <= k < services@.len() && 0 <= i < 5 ==> (#[trigger] r.rows@[k]@[i])@ == row_of(
                services@[k],
            )[i],
        r.selected is None,
{
    let mut t = TableState::new(service_headers());
    let mut k: usize = 0;
    while k < services.len()
        invariant
            0 <= k <= services@.len(),
            t.headers@.len() == 5,
            t.rows@.len() == k,
            t.selected is None,
            forall|j: int, i: int|
                0 <= j < k && 0 <= i < 5 ==> (#[trigger] t.rows@[j]@[i])@ == row_of(
                    services@[j],
                )[i],
        decreases services@.len() - k,
    {
        let row = service_row(&services[k]);
        let added = t.add_row(row);
        assert(added);
        k = k + 1;
    }
    t
}

} // verus!
