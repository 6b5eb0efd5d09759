//! Columnar export batch: parallel columns of equal length, ready for a
//! tabular persistence collaborator.

use vstd::prelude::*;

verus! {

/// A batch of sensor rows as parallel columns. The invariant every method
/// keeps: all ten columns have the same length.
#[derive(Debug, Clone)]
pub struct SensorBatch {
    /// Session identifier of each row.
    pub session_id: Vec<i64>,
    /// Unix-seconds timestamp of each row.
    pub ts_unix_sec: Vec<i64>,
    /// Heart rate of each row, in milli-bpm.
    pub hr_milli: Vec<i64>,
    /// HRV of each row, in milli-ms.
    pub hrv_milli: Vec<i64>,
    /// EDA of each row, in milli-microsiemens.
    pub eda_milli: Vec<i64>,
    /// Temperature of each row, in milli-degrees Celsius.
    pub temp_milli: Vec<i64>,
    /// Accelerometer magnitude of each row, in milli-g.
    pub accel_milli: Vec<i64>,
    /// Activity name of each row.
    pub activity: Vec<String>,
    /// Stress fraction of each row, in milli (per-mille).
    pub stress_milli: Vec<i64>,
    /// Whether the user exercised during each row.
    pub exercise_flag: Vec<bool>,
}

impl SensorBatch {
    /// All ten columns hold one entry per row.
    pub open spec fn wf(self) -> bool {
        &&& self.ts_unix_sec@.len() == self.session_id@.len()
        &&& self.hr_milli@.len() == self.session_id@.len()
        &&& self.hrv_milli@.len() == self.session_id@.len()
        &&& self.eda_milli@.len() == self.session_id@.len()
        &&& self.temp_milli@.len() == self.session_id@.len()
        &&& self.accel_milli@.len() == self.session_id@.len()
        &&& self.activity@.len() == self.session_id@.len()
        &&& self.stress_milli@.len() == self.session_id@.len()
        &&& self.exercise_flag@.len() == self.session_id@.len()
    }

    /// Number of rows in the batch.
    pub open spec fn spec_len(self) -> nat {
        self.session_id@.len()
    }

    /// An empty batch.
    pub fn new() -> (r: Self)
        ensures
            r.wf(),
            r.spec_len() == 0,
    {
        SensorBatch {
            session_id: Vec::new(),
            ts_unix_sec: Vec::new(),
            hr_milli: Vec::new(),
            hrv_milli: Vec::new(),
            eda_milli: Vec::new(),
            temp_milli: Vec::new(),
            accel_milli: Vec::new(),
            activity: Vec::new(),
            stress_milli: Vec::new(),
            exercise_flag: Vec::new(),
        }
    }

    /// Number of rows in the batch.
    pub fn len(&self) -> (r: usize)
        ensures
            r == self.spec_len(),
    {
        self.session_id.len()
    }

    /// Append one row: every column grows by its value, earlier rows stay.
    pub fn push_row(
        &mut self,
        session_id: i64,
        ts_unix_sec: i64,
        hr_milli: i64,
        hrv_milli: i64,
        eda_milli: i64,
        temp_milli: i64,
        accel_milli: i64,
        activity: String,
        stress_milli: i64,
        exercise_flag: bool,
    )
        requires
            old(self).wf(),
        ensures
            final(self).wf(),
            final(self).spec_len() == old(self).spec_len() + 1,
            final(self).session_id@ == old(self).session_id@.push(session_id),
            final(self).ts_unix_sec@ == old(self).ts_unix_sec@.push(ts_unix_sec),
            final(self).hr_milli@ == old(self).hr_milli@.push(hr_milli),
            final(self).hrv_milli@ == old(self).hrv_milli@.push(hrv_milli),
            final(self).eda_milli@ == old(self).eda_milli@.push(eda_milli),
            final(self).temp_milli@ == old(self).temp_milli@.push(temp_milli),
            final(self).accel_milli@ == old(self).accel_milli@.push(accel_milli),
            final(self).activity@ == old(self).activity@.push(activity),
            final(self).stress_milli@ == old(self).stress_milli@.push(stress_milli),
            final(self).exercise_flag@ == old(self).exercise_flag@.push(exercise_flag),
    {
        self.session_id.push(session_id);
        self.ts_unix_sec.push(ts_unix_sec);
        self.hr_milli.push(hr_milli);
        self.hrv_milli.push(hrv_milli);
        self.eda_milli.push(eda_milli);
        self.temp_milli.push(temp_milli);
        self.accel_milli.push(accel_milli);
        self.activity.push(activity);
        self.stress_milli.push(stress_milli);
        self.exercise_flag.push(exercise_flag);
    }
}

} // verus!
