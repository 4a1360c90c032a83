use vstd::prelude::*;

verus! {

/// How a trip between two places is made.
#[derive(Clone, Copy, PartialEq, Eq, Structural, Debug)]
pub enum TranspMode {
    Train,
    Plane,
    Car,
}

impl TranspMode {
    /// The mode's display name.
    pub open spec fn spec_name(self) -> Seq<char> {
        match self {
            TranspMode::Train => "Train"@,
            TranspMode::Plane => "Plane"@,
            TranspMode::Car => "Car"@,
        }
    }

    /// The mode's display name.
    pub fn name(&self) -> (r: String)
        ensures
            r@ == self.spec_name(),
    {
        match self {
            TranspMode::Train => "Train".to_owned(),
            TranspMode::Plane => "Plane".to_owned(),
            TranspMode::Car => "Car".to_owned(),
        }
    }
}

/// An optional journey attached to a group: origin and destination
/// free-text names plus the transport mode.
pub struct Trip {
    pub transp_mode: TranspMode,
    pub origin: String,
    pub destination: String,
}

/// The mathematical value of a `Trip`.
#[verifier::ext_equal]
pub struct TripView {
    pub transp_mode: TranspMode,
    pub origin: Seq<char>,
    pub destination: Seq<char>,
}

impl View for Trip {
    type V = TripView;

    open spec fn view(&self) -> TripView {
        TripView {
            transp_mode: self.transp_mode,
            origin: self.origin@,
            destination: self.destination@,
        }
    }
}

impl Clone for Trip {
    fn clone(&self) -> (r: Self)
        ensures
            r == *self,
    {
        Trip {
            transp_mode: self.transp_mode,
            origin: self.origin.clone(),
            destination: self.destination.clone(),
        }
    }
}

} // verus!
