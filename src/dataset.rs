use vstd::prelude::*;

verus! {

/// A stop of the schedule. Coordinates are in ten-millionths of a degree.
#[derive(Clone, Debug)]
pub struct Stop {
    pub id: String,
    pub name: String,
    pub longitude: i64,
    pub latitude: i64,
}

/// The identifiers of the lines that serve one stop.
#[derive(Clone, Debug)]
pub struct StopLines {
    pub stop_id: String,
    pub lines: Vec<String>,
}

/// An immutable, fully built snapshot of schedule data: its stops, and the
/// index from stop identifier to the lines serving it.
#[derive(Clone, Debug)]
pub struct Dataset {
    pub stops: Vec<Stop>,
    pub lines_of_stops: Vec<StopLines>,
}

/// The lines that `index` lists for stop `id`: those of its first entry for
/// that stop, none when it has no entry.
pub open spec fn lines_for(index: Seq<StopLines>, id: Seq<char>) -> Seq<String>
    decreases index.len(),
{
    if index.len() == 0 {
        Seq::empty()
    } else if index[0].stop_id@ == id {
        index[0].lines@
    } else {
        lines_for(index.drop_first(), id)
    }
}

impl Dataset {
    /// The lines serving the stop with identifier `id`.
    pub open spec fn lines_of(&self, id: Seq<char>) -> Seq<String> {
        lines_for(self.lines_of_stops@, id)
    }

    /// Looks up the index entry of the stop with identifier `id`: `None` when
    /// the index has no entry for it, in which case no line serves it.
    pub fn lines_of_stop(&self, id: &String) -> (r: Option<&Vec<String>>)
        ensures
            match r {
                Some(v) => v@ == self.lines_of(id@),
                None => self.lines_of(id@) == Seq::<String>::empty(),
            },
    {
        let mut i: usize = 0;
        assert(self.lines_of_stops@.subrange(0, self.lines_of_stops@.len() as int) =~= self.lines_of_stops@);
        while i < self.lines_of_stops.len()
            invariant
                i <= self.lines_of_stops@.len(),
                lines_for(self.lines_of_stops@, id@) == lines_for(self.lines_of_stops@.subrange(i as int, self.lines_of_stops@.len() as int), id@),
            decreases self.lines_of_stops@.len() - i,
        {
            let ghost rest = self.lines_of_stops@.subrange(i as int, self.lines_of_stops@.len() as int);
            assert(rest.drop_first() =~= self.lines_of_stops@.subrange(i + 1, self.lines_of_stops@.len() as int));
            assert(rest[0] == self.lines_of_stops@[i as int]);
            if self.lines_of_stops[i].stop_id.eq(id) {
                let found = &self.lines_of_stops[i].lines;
                return Some(found);
            }
            i = i + 1;
        }
        None
    }
}

} // verus!
