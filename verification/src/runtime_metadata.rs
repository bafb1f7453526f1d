//! The runtime metadata of a program.

use vstd::prelude::*;

use crate::code_registration;
use crate::code_registration::{CodeRegistrationView, Il2CppCodeRegistration};
use crate::errors::ReadFailure;
use crate::global_metadata::GlobalMetadata;
use crate::metadata_registration;
use crate::metadata_registration::{Il2CppMetadataRegistration, MetadataRegistrationView};
use crate::object_file::ObjectFile;
use crate::reader::Image;

verus! {

#[derive(Debug)]
pub struct RuntimeMetadata {
    pub code_registration: Il2CppCodeRegistration,
    pub metadata_registration: Il2CppMetadataRegistration,
}

/// The mathematical value of a [`RuntimeMetadata`].
#[verifier::ext_equal]
pub struct RuntimeMetadataView {
    pub code_registration: CodeRegistrationView,
    pub metadata_registration: MetadataRegistrationView,
}

impl View for RuntimeMetadata {
    type V = RuntimeMetadataView;

    open spec fn view(&self) -> RuntimeMetadataView {
        RuntimeMetadataView {
            code_registration: self.code_registration@,
            metadata_registration: self.metadata_registration@,
        }
    }
}

/// Everything known of a program.
#[derive(Debug)]
pub struct Metadata {
    pub global_metadata: GlobalMetadata,
    pub runtime_metadata: RuntimeMetadata,
}

/// The runtime metadata with its code registration at `code_addr` and its metadata registration
/// at `metadata_addr`.
pub open spec fn runtime_metadata_at(
    img: Image,
    code_addr: u64,
    metadata_addr: u64,
    counts: Seq<u16>,
) -> Result<RuntimeMetadataView, ReadFailure> {
    match code_registration::code_registration_at(img, code_addr) {
        Err(e) => Err(e),
        Ok(code_registration) => match metadata_registration::metadata_registration_at(
            img,
            metadata_addr,
            counts,
        ) {
            Err(e) => Err(e),
            Ok(metadata_registration) => Ok(
                RuntimeMetadataView { code_registration, metadata_registration },
            ),
        },
    }
}

/// Whether reading came out as `outcome` says.
pub open spec fn read_as(
    r: Result<RuntimeMetadata, ReadFailure>,
    outcome: Result<RuntimeMetadataView, ReadFailure>,
) -> bool {
    match r {
        Ok(metadata) => outcome == Ok::<RuntimeMetadataView, ReadFailure>(metadata@),
        Err(e) => outcome == Err::<RuntimeMetadataView, ReadFailure>(e),
    }
}

impl RuntimeMetadata {
    /// Reads the runtime metadata, given the addresses of its two registrations.
    pub fn read_registrations(
        object: &ObjectFile,
        data: &[u8],
        code_addr: u64,
        metadata_addr: u64,
        global_metadata: &GlobalMetadata,
    ) -> (r: Result<Self, ReadFailure>)
        ensures
            read_as(
                r,
                runtime_metadata_at(
                    Image { segments: object.segments@, bss: object.bss, data: data@ },
                    code_addr,
                    metadata_addr,
                    metadata_registration::field_counts(global_metadata.type_definitions@),
                ),
            ),
    {
        let code_registration = match Il2CppCodeRegistration::read(object, data, code_addr) {
            Ok(registration) => registration,
            Err(e) => return Err(e),
        };
        match Il2CppMetadataRegistration::read(object, data, metadata_addr, global_metadata) {
            Ok(metadata_registration) => Ok(
                RuntimeMetadata { code_registration, metadata_registration },
            ),
            Err(e) => Err(e),
        }
    }
}

/// Runtime metadata is read exactly if both registrations can be, the code registration first.
pub proof fn law_runtime_metadata(
    img: Image,
    code_addr: u64,
    metadata_addr: u64,
    counts: Seq<u16>,
    m: RuntimeMetadataView,
)
    ensures
        ({
            let r = runtime_metadata_at(img, code_addr, metadata_addr, counts);
            let code = code_registration::code_registration_at(img, code_addr);
            let metadata = metadata_registration::metadata_registration_at(
                img,
                metadata_addr,
                counts,
            );
            &&& r == Ok::<RuntimeMetadataView, ReadFailure>(m) <==> code == Ok::<
                CodeRegistrationView,
                ReadFailure,
            >(m.code_registration) && metadata == Ok::<MetadataRegistrationView, ReadFailure>(
                m.metadata_registration,
            )
            &&& code is Err ==> r is Err && r->Err_0 == code->Err_0
            &&& code is Ok && metadata is Err ==> r is Err && r->Err_0 == metadata->Err_0
        }),
{
}

/// Reading came out as was expected exactly if it gave the same value or the same failure.
pub proof fn law_read_as(
    r: Result<RuntimeMetadata, ReadFailure>,
    outcome: Result<RuntimeMetadataView, ReadFailure>,
)
    ensures
        read_as(r, outcome) <==> {
            &&& r is Ok <==> outcome is Ok
            &&& r is Ok ==> outcome.unwrap().code_registration == r.unwrap().code_registration@
                && outcome.unwrap().metadata_registration == r.unwrap().metadata_registration@
            &&& r is Err ==> r->Err_0 == outcome->Err_0
        },
{
}

} // verus!
