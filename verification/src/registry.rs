//! A registry of named integer gauges.
//!
//! The registry owns every gauge; callers hold lightweight handles. Exactly
//! one gauge exists per name: registering a name twice fails with the same
//! error every time and leaves the registry untouched.

use vstd::prelude::*;

verus! {

/// The mathematical model of one gauge: its stable name, its help text and
/// its current value.
pub struct GaugeView {
    pub name: Seq<char>,
    pub help: Seq<char>,
    pub value: int,
}

/// A named integer gauge. The name and help text are fixed at registration;
/// the value is last-writer-wins.
pub struct Gauge {
    pub(crate) name: String,
    pub(crate) help: String,
    pub(crate) value: i64,
}

impl View for Gauge {
    type V = GaugeView;

    closed spec fn view(&self) -> GaugeView {
        GaugeView { name: self.name@, help: self.help@, value: self.value as int }
    }
}

/// A handle to one registered gauge: the position the gauge was registered
/// at. Handles are only meaningful for the registry that issued them.
#[derive(Clone, Copy, Debug, PartialEq, Eq, Structural)]
pub struct GaugeHandle {
    pub index: usize,
}

/// The kind of a registered metric. The registry holds integer gauges only.
#[derive(Clone, Copy, Debug, PartialEq, Eq, Structural)]
pub enum MetricKind {
    Gauge,
}

/// One entry of a registry snapshot: a consistent read of a single metric.
pub struct MetricSample {
    pub name: String,
    pub help: String,
    pub kind: MetricKind,
    pub value: i64,
}

/// The errors of this crate.
///
/// Registering a name twice is a configuration error: it is reported, never
/// silently ignored, and always as this same value. A serialization failure
/// is reserved for an export whose encoding cannot be produced; the verified
/// exporter proves it never happens.
#[derive(Clone, Copy, Debug, PartialEq, Eq, Structural)]
pub enum MetricsError {
    DuplicateRegistration,
    SerializationFailure,
}

/// True when some gauge in `gauges` carries `name`.
pub open spec fn contains_name(gauges: Seq<GaugeView>, name: Seq<char>) -> bool {
    exists|i: int| 0 <= i < gauges.len() && gauges[i].name == name
}

/// Registering a name that is already taken fails deterministically: in a
/// state that holds the name, the registration contract admits no outcome
/// but the one duplicate-registration error, so any two refusals are the
/// same error — never a silent overwrite.
pub proof fn lemma_duplicate_registration_deterministic(
    gauges: Seq<GaugeView>,
    name: Seq<char>,
    first: Result<GaugeHandle, MetricsError>,
    second: Result<GaugeHandle, MetricsError>,
)
    requires
        contains_name(gauges, name),
        match first {
            Ok(_) => !contains_name(gauges, name),
            Err(err) => err == MetricsError::DuplicateRegistration,
        },
        match second {
            Ok(_) => !contains_name(gauges, name),
            Err(err) => err == MetricsError::DuplicateRegistration,
        },
    ensures
        first == Err::<GaugeHandle, MetricsError>(MetricsError::DuplicateRegistration),
        first == second,
{
}

/// A registry of gauges, modelled as the sequence of its gauges in
/// registration order. No two gauges share a name.
pub struct Registry {
    gauges: Vec<Gauge>,
}

impl View for Registry {
    type V = Seq<GaugeView>;

    closed spec fn view(&self) -> Seq<GaugeView> {
        self.gauges@.map_values(|g: Gauge| g@)
    }
}

impl Registry {
    /// No two registered gauges share a name.
    #[verifier::type_invariant]
    spec fn names_unique(self) -> bool {
        forall|i: int, j: int|
            0 <= i < j < self@.len() ==> self@[i].name != self@[j].name
    }

    /// An empty registry: the start of the process, before registration.
    pub fn new() -> (registry: Registry)
        ensures
            registry@ == Seq::<GaugeView>::empty(),
    {
        let registry = Registry { gauges: Vec::new() };
        proof {
            assert(registry@ =~= Seq::<GaugeView>::empty());
        }
        registry
    }

    /// How many metrics are registered.
    pub fn metric_count(&self) -> (count: usize)
        ensures
            count == self@.len(),
    {
        self.gauges.len()
    }

    /// A shared view of the gauge a handle points at.
    pub fn gauge_at(&self, index: usize) -> (gauge: &Gauge)
        requires
            index < self@.len(),
        ensures
            gauge@ == self@[index as int],
    {
        &self.gauges[index]
    }

    /// The position of the gauge named `name`, if one is registered.
    fn find_gauge(&self, name: &String) -> (found: Option<usize>)
        ensures
            match found {
                Some(index) => index < self@.len() && self@[index as int].name == name@,
                None => !contains_name(self@, name@),
            },
    {
        let count = self.gauges.len();
        let mut i: usize = 0;
        while i < count
            invariant
                count == self@.len(),
                i <= count,
                forall|k: int| 0 <= k < i ==> self@[k].name != name@,
            decreases count - i,
        {
            if self.gauges[i].name == *name {
                return Some(i);
            }
            i += 1;
        }
        None
    }

    /// Whether a metric named `name` is registered.
    pub fn has_metric(&self, name: &str) -> (present: bool)
        ensures
            present == contains_name(self@, name@),
    {
        let owned: String = name.to_owned();
        self.find_gauge(&owned).is_some()
    }

    /// Creates and inserts a new gauge under `name`, starting at value 0.
    ///
    /// Succeeds exactly when `name` is not yet registered; a duplicate name
    /// is refused with the same error every time and the registry is left
    /// unchanged.
    pub fn register_gauge(&mut self, name: &str, help: &str) -> (result: Result<
        GaugeHandle,
        MetricsError,
    >)
        ensures
            match result {
                Ok(handle) => !contains_name(old(self)@, name@) && handle.index == old(self)@.len()
                    && final(self)@ == old(self)@.push(
                    (GaugeView { name: name@, help: help@, value: 0 }),
                ),
                Err(err) => contains_name(old(self)@, name@) && err
                    == MetricsError::DuplicateRegistration && final(self)@ == old(self)@,
            },
    {
        proof {
            use_type_invariant(&*self);
        }
        let owned_name: String = name.to_owned();
        if self.find_gauge(&owned_name).is_some() {
            return Err(MetricsError::DuplicateRegistration);
        }
        let handle = GaugeHandle { index: self.gauges.len() };
        let mut gauges: Vec<Gauge> = Vec::new();
        std::mem::swap(&mut gauges, &mut self.gauges);
        gauges.push(Gauge { name: owned_name, help: help.to_owned(), value: 0 });
        proof {
            let new_view = gauges@.map_values(|g: Gauge| g@);
            let added = GaugeView { name: name@, help: help@, value: 0 };
            assert(new_view =~= old(self)@.push(added));
            assert forall|i: int, j: int|
                0 <= i < j < new_view.len() implies new_view[i].name != new_view[j].name by {
                if j < old(self)@.len() {
                    assert(old(self)@[i].name != old(self)@[j].name);
                } else {
                    assert(new_view[j].name == name@);
                    if new_view[i].name == name@ {
                        assert(contains_name(old(self)@, name@));
                    }
                }
            }
        }
        self.gauges = gauges;
        Ok(handle)
    }

    /// Writes `value` into the gauge a handle points at; every other gauge,
    /// and the gauge's own name and help, are untouched.
    pub fn set_gauge(&mut self, handle: &GaugeHandle, value: i64)
        requires
            handle.index < old(self)@.len(),
        ensures
            final(self)@ == old(self)@.update(
                handle.index as int,
                (GaugeView {
                    name: old(self)@[handle.index as int].name,
                    help: old(self)@[handle.index as int].help,
                    value: value as int,
                }),
            ),
    {
        proof {
            use_type_invariant(&*self);
        }
        let mut gauges: Vec<Gauge> = Vec::new();
        std::mem::swap(&mut gauges, &mut self.gauges);
        gauges[handle.index].value = value;
        proof {
            let new_view = gauges@.map_values(|g: Gauge| g@);
            let updated = GaugeView {
                name: old(self)@[handle.index as int].name,
                help: old(self)@[handle.index as int].help,
                value: value as int,
            };
            assert(new_view =~= old(self)@.update(handle.index as int, updated));
            assert forall|i: int, j: int|
                0 <= i < j < new_view.len() implies new_view[i].name != new_view[j].name by {
                assert(new_view[i].name == old(self)@[i].name);
                assert(new_view[j].name == old(self)@[j].name);
                assert(old(self)@[i].name != old(self)@[j].name);
            }
        }
        self.gauges = gauges;
    }

    /// Reads the current value of the gauge a handle points at.
    pub fn gauge_value(&self, handle: &GaugeHandle) -> (value: i64)
        requires
            handle.index < self@.len(),
        ensures
            value as int == self@[handle.index as int].value,
    {
        self.gauges[handle.index].value
    }

    /// A consistent read of every registered metric, for export: name, help,
    /// kind and current value, in registration order.
    pub fn snapshot(&self) -> (samples: Vec<MetricSample>)
        ensures
            samples@.len() == self@.len(),
            forall|i: int|
                0 <= i < self@.len() ==> (#[trigger] samples@[i]).name@ == self@[i].name
                    && samples@[i].help@ == self@[i].help && samples@[i].kind == MetricKind::Gauge
                    && samples@[i].value as int == self@[i].value,
    {
        let count = self.gauges.len();
        let mut samples: Vec<MetricSample> = Vec::new();
        let mut i: usize = 0;
        while i < count
            invariant
                count == self@.len(),
                i <= count,
                samples@.len() == i,
                forall|k: int|
                    0 <= k < i ==> (#[trigger] samples@[k]).name@ == self@[k].name
                        && samples@[k].help@ == self@[k].help && samples@[k].kind
                        == MetricKind::Gauge && samples@[k].value as int == self@[k].value,
            decreases count - i,
        {
            let gauge = &self.gauges[i];
            samples.push(
                MetricSample {
                    name: gauge.name.clone(),
                    help: gauge.help.clone(),
                    kind: MetricKind::Gauge,
                    value: gauge.value,
                },
            );
            i += 1;
        }
        samples
    }
}

impl Gauge {
    /// The gauge's stable name.
    pub fn name(&self) -> (name: &String)
        ensures
            name@ == self@.name,
    {
        &self.name
    }

    /// The gauge's help text.
    pub fn help(&self) -> (help: &String)
        ensures
            help@ == self@.help,
    {
        &self.help
    }

    /// The gauge's current value.
    pub fn value(&self) -> (value: i64)
        ensures
            value as int == self@.value,
    {
        self.value
    }
}

} // verus!
