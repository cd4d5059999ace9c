use vstd::prelude::*;

verus! {

/// A telemetry row that a [`Recorder`] collects.
pub trait Record: Sized {

}

/// One per-generation telemetry row of the genetic algorithm, in fixed
/// point.
#[derive(Copy, Clone, Debug, PartialEq, Eq, Structural)]
pub struct GenerationRow {
    /// Generation index.
    pub generation: u32,
    /// Offspring count that generation.
    pub offspring: u32,
    /// Fundamental-frequency estimate of the fittest individual.
    pub fundamental: i64,
    /// Fitness of the fittest individual.
    pub max_fitness: i64,
    /// Mean fitness of the population.
    pub average_fitness: i64,
    /// Spread of the population's fitness.
    pub std_dev: i64,
}

/// One per-iteration telemetry row of the hill climber, in fixed point.
#[derive(Copy, Clone, Debug, PartialEq, Eq, Structural)]
pub struct IterationRow {
    /// Iteration index.
    pub iteration: u32,
    /// Fitness of the current individual.
    pub fitness: i64,
    /// Fundamental-frequency estimate of the current individual.
    pub fundamental: i64,
}

impl Record for GenerationRow {

}

impl Record for IterationRow {

}

/// Collects telemetry rows during a run, for later export by the caller.
pub struct Recorder<R: Record> {
    rows: Vec<R>,
}

impl<R: Record> View for Recorder<R> {
    type V = Seq<R>;

    closed spec fn view(&self) -> Seq<R> {
        self.rows@
    }
}

impl<R: Record> Recorder<R> {
    /// An empty recorder.
    pub fn new() -> (r: Self)
        ensures
            r@.len() == 0,
    {
        Self { rows: Vec::new() }
    }

    /// Appends one row.
    pub fn add_record(&mut self, record: R)
        ensures
            final(self)@ == old(self)@.push(record),
    {
        self.rows.push(record);
    }

    /// The rows collected so far, oldest first.
    pub fn rows(&self) -> (r: &Vec<R>)
        ensures
            r@ == self@,
    {
        &self.rows
    }
}

} // verus!
