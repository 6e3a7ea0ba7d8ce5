//! Records of the bio-enrollment command.

use vstd::prelude::*;

verus! {

/// One enrolled template: its id and the name the user gave it.
#[derive(Debug, Clone, PartialEq, Eq)]
pub struct TemplateInfo {
    pub template_id: Vec<u8>,
    pub template_friendly_name: String,
}

/// A template as a mathematical value.
#[verifier::ext_equal]
pub struct TemplateInfoModel {
    pub template_id: Seq<u8>,
    pub template_friendly_name: Seq<char>,
}

impl View for TemplateInfo {
    type V = TemplateInfoModel;

    open spec fn view(&self) -> TemplateInfoModel {
        TemplateInfoModel {
            template_id: self.template_id@,
            template_friendly_name: self.template_friendly_name@,
        }
    }
}

impl Default for TemplateInfo {
    fn default() -> (r: Self)
        ensures
            r@ == (TemplateInfoModel {
                template_id: Seq::empty(),
                template_friendly_name: Seq::empty(),
            }),
    {
        TemplateInfo { template_id: Vec::new(), template_friendly_name: String::new() }
    }
}

/// The templates of a list, each as a mathematical value.
pub open spec fn templates_view(list: Seq<TemplateInfo>) -> Seq<TemplateInfoModel> {
    Seq::new(list.len(), |i: int| list[i]@)
}

/// What the authenticator tells of its fingerprint sensor and of the
/// templates enrolled.
#[derive(Debug, Clone, PartialEq, Eq)]
pub struct BioEnrollmentData {
    pub modality: u32,
    pub fingerprint_kind: u32,
    pub max_capture_samples_required_for_enroll: u32,
    pub template_infos: Vec<TemplateInfo>,
    pub max_template_friendly_name: u32,
}

/// Bio-enrollment data as a mathematical value.
#[verifier::ext_equal]
pub struct BioEnrollmentModel {
    pub modality: u32,
    pub fingerprint_kind: u32,
    pub max_capture_samples_required_for_enroll: u32,
    pub template_infos: Seq<TemplateInfoModel>,
    pub max_template_friendly_name: u32,
}

impl View for BioEnrollmentData {
    type V = BioEnrollmentModel;

    open spec fn view(&self) -> BioEnrollmentModel {
        BioEnrollmentModel {
            modality: self.modality,
            fingerprint_kind: self.fingerprint_kind,
            max_capture_samples_required_for_enroll: self.max_capture_samples_required_for_enroll,
            template_infos: templates_view(self.template_infos@),
            max_template_friendly_name: self.max_template_friendly_name,
        }
    }
}

impl BioEnrollmentModel {
    /// The data with every field at its default.
    pub open spec fn empty() -> BioEnrollmentModel {
        BioEnrollmentModel {
            modality: 0,
            fingerprint_kind: 0,
            max_capture_samples_required_for_enroll: 0,
            template_infos: Seq::empty(),
            max_template_friendly_name: 0,
        }
    }
}

impl Default for BioEnrollmentData {
    fn default() -> (r: Self)
        ensures
            r@ == BioEnrollmentModel::empty(),
    {
        let r = BioEnrollmentData {
            modality: 0,
            fingerprint_kind: 0,
            max_capture_samples_required_for_enroll: 0,
            template_infos: Vec::new(),
            max_template_friendly_name: 0,
        };
        assert(r@ =~= BioEnrollmentModel::empty());
        r
    }
}

} // verus!
