//! The job record: an immutable snapshot of one monitored command, as the
//! data source reports it, together with its mathematical view.

use vstd::prelude::*;

verus! {

/// One displayable name/value pair attached to a job.
pub struct Property {
    pub name: String,
    pub value: String,
}

/// A snapshot of one job. Lifecycle timestamps are millisecond epoch
/// instants, with `0` meaning "unset".
pub struct Job {
    pub id: String,
    pub name: String,
    pub state: String,
    pub waiting_at: u64,
    pub running_at: u64,
    pub terminated_at: u64,
    pub properties: Vec<Property>,
}

/// The mathematical value of a property pair.
#[verifier::ext_equal]
pub ghost struct PropertyView {
    pub name: Seq<char>,
    pub value: Seq<char>,
}

/// The mathematical value of a job record: what the record holds, free of
/// any representation detail.
#[verifier::ext_equal]
pub ghost struct JobView {
    pub id: Seq<char>,
    pub name: Seq<char>,
    pub state: Seq<char>,
    pub waiting_at: u64,
    pub running_at: u64,
    pub terminated_at: u64,
    pub properties: Seq<PropertyView>,
}

impl View for Property {
    type V = PropertyView;

    open spec fn view(&self) -> PropertyView {
        PropertyView { name: self.name@, value: self.value@ }
    }
}

impl View for Job {
    type V = JobView;

    open spec fn view(&self) -> JobView {
        JobView {
            id: self.id@,
            name: self.name@,
            state: self.state@,
            waiting_at: self.waiting_at,
            running_at: self.running_at,
            terminated_at: self.terminated_at,
            properties: self.properties@.map_values(|p: Property| p@),
        }
    }
}

/// The views of a whole job list, in order.
pub open spec fn job_views(jobs: Seq<Job>) -> Seq<JobView> {
    jobs.map_values(|j: Job| j@)
}

impl Clone for Property {
    fn clone(&self) -> (r: Self)
        ensures
            r@ == self@,
    {
        Property { name: self.name.clone(), value: self.value.clone() }
    }
}

impl Clone for Job {
    /// A detached copy: the same value, unaffected by anything later done
    /// to the record it was taken from.
    fn clone(&self) -> (r: Self)
        ensures
            r@ == self@,
    {
        let mut props: Vec<Property> = Vec::new();
        let mut i: usize = 0;
        while i < self.properties.len()
            invariant
                i <= self.properties.len(),
                props@.len() == i,
                forall|j: int| 0 <= j < i ==> props@[j]@ == #[trigger] self.properties@[j]@,
            decreases self.properties.len() - i,
        {
            props.push(self.properties[i].clone());
            i += 1;
        }
        let r = Job {
            id: self.id.clone(),
            name: self.name.clone(),
            state: self.state.clone(),
            waiting_at: self.waiting_at,
            running_at: self.running_at,
            terminated_at: self.terminated_at,
            properties: props,
        };
        proof {
            assert(r@.properties =~= self@.properties);
            assert(r@ =~= self@);
        }
        r
    }
}

} // verus!
