//! The parameters of a simulation run.
use vstd::prelude::*;

verus! {

/// The parameters of a run. Durations are in milliseconds.
#[derive(Clone, Copy, Debug, PartialEq, Eq, Structural)]
pub struct Config {
    pub floor_count: u8,
    pub elevator_count: usize,
    pub passenger_count: usize,
    pub capacity: usize,
    pub door_dwell_ms: u64,
    pub boarding_window_ms: u64,
    pub button_window_ms: u64,
    pub entry_ack_timeout_ms: u64,
    pub passenger_settle_ms: u64,
}

impl Config {
    /// A building needs two floors and one elevator.
    pub open spec fn valid(&self) -> bool {
        self.floor_count >= 2 && self.elevator_count >= 1
    }

    /// Whether the parameters describe a building that can run.
    pub fn is_valid(&self) -> (r: bool)
        ensures
            r == self.valid(),
    {
        self.floor_count >= 2 && self.elevator_count >= 1
    }
}

impl Default for Config {
    /// Four floors, three elevators, one passenger, two places per car, a
    /// door dwell of one second, a boarding window of ten seconds, a
    /// button-collection window of two, and one second each to wait for an
    /// acknowledgement and to settle in after boarding.
    fn default() -> (c: Config)
        ensures
            c == (Config {
                floor_count: 4,
                elevator_count: 3,
                passenger_count: 1,
                capacity: 2,
                door_dwell_ms: 1000,
                boarding_window_ms: 10000,
                button_window_ms: 2000,
                entry_ack_timeout_ms: 1000,
                passenger_settle_ms: 1000,
            }),
            c.valid(),
    {
        Config {
            floor_count: 4,
            elevator_count: 3,
            passenger_count: 1,
            capacity: 2,
            door_dwell_ms: 1000,
            boarding_window_ms: 10000,
            button_window_ms: 2000,
            entry_ack_timeout_ms: 1000,
            passenger_settle_ms: 1000,
        }
    }
}

} // verus!
