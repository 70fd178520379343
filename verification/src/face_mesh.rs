//! Face mesh detection.

use vstd::prelude::*;
use crate::adapter::{declare, faces_of, fixed_error, lemma_ascii_terminable, open_fixed};
use crate::decode::RawResult;
use crate::detector::{
    decode_raw, names_of, names_terminable, raw_violation, result_of, Detector,
};
use crate::error::{ConfigurationError, ContractViolation};
use crate::feature::{FeatureType, Output};
use crate::instance::FaceMesh;
use crate::layout::kinds_of;

verus! {

/// The features of the outputs that a face mesh graph declares.
pub open spec fn face_kinds() -> Seq<FeatureType> {
    seq![FeatureType::Faces]
}

/// A detector of the face meshes in a frame.
#[derive(Debug, PartialEq, Eq)]
pub struct FaceMeshDetector {
    graph: Detector,
}

impl FaceMeshDetector {
    #[verifier::type_invariant]
    spec fn declared(&self) -> bool {
        kinds_of(self.graph.outputs()@) == face_kinds()
    }

    /// The address of the engine's graph.
    pub closed spec fn spec_handle(&self) -> usize {
        self.graph.handle()
    }

    /// The outputs that a face mesh graph declares: the faces, on the node
    /// `multi_face_landmarks`.
    pub fn outputs() -> (o: Vec<Output>)
        ensures
            o@.len() == 1,
            kinds_of(o@) == face_kinds(),
            names_of(o@) == seq!["multi_face_landmarks"@],
            names_terminable(names_of(o@)),
    {
        let mut o: Vec<Output> = Vec::new();
        o.push(declare(FeatureType::Faces, "multi_face_landmarks"));
        proof {
            reveal_strlit("multi_face_landmarks");
            lemma_ascii_terminable("multi_face_landmarks"@);
            assert(kinds_of(o@) =~= face_kinds());
            assert(names_of(o@) =~= seq!["multi_face_landmarks"@]);
        }
        o
    }

    /// Makes the detector of the graph that the engine created for a face
    /// mesh configuration and `FaceMeshDetector::outputs()`. `native` is the
    /// address that the engine returned, zero where it returned no graph.
    pub fn new(graph_config: &str, native: usize) -> (r: Result<
        FaceMeshDetector,
        ConfigurationError,
    >)
        ensures
            match r {
                Ok(detector) => fixed_error(graph_config@, native) is None && detector.handle()
                    == native,
                Err(e) => fixed_error(graph_config@, native) == Some(e),
            },
    {
        match open_fixed(graph_config, FaceMeshDetector::outputs(), native) {
            Ok(graph) => Ok(FaceMeshDetector { graph }),
            Err(e) => Err(e),
        }
    }

    /// The address of the engine's graph. It is never zero.
    #[verifier::when_used_as_spec(spec_handle)]
    pub fn handle(&self) -> (h: usize)
        ensures
            h == self.spec_handle(),
            h != 0,
    {
        self.graph.handle()
    }

    /// Reads what the engine returned for a frame: the detected face
    /// meshes, in the engine's order.
    pub fn process(&mut self, raw: &RawResult) -> (r: Result<Vec<FaceMesh>, ContractViolation>)
        ensures
            *final(self) == *old(self),
            match r {
                Ok(faces) => {
                    &&& raw_violation(face_kinds(), *raw) is None
                    &&& faces@.len() == result_of(face_kinds(), *raw)[0].len()
                    &&& forall|j: int|
                        0 <= j < faces@.len() ==> (#[trigger] faces@[j]).data@ == result_of(
                            face_kinds(),
                            *raw,
                        )[0][j]
                },
                Err(e) => raw_violation(face_kinds(), *raw) == Some(e),
            },
    {
        proof {
            use_type_invariant(&*self);
        }
        let result = decode_raw(self.graph.outputs(), raw)?;
        let instances = &result[0];
        proof {
            let nested = result.deep_view();
            assert(nested[0] == instances.deep_view());
            assert forall|j: int| 0 <= j < nested[0].len() implies (#[trigger] nested[0][j]).len()
                == 478 by {}
        }
        faces_of(instances)
    }

    /// Gives the detector up. Returns the address of the graph, which the
    /// caller hands to the engine to be destroyed.
    pub fn destroy(self) -> (h: usize)
        ensures
            h == self.handle(),
            h != 0,
    {
        self.graph.destroy()
    }
}

} // verus!
