//! The Kubernetes objects of one helm run: the Secret with the credentials and
//! the Job that runs helm.
//!
//! Each type holds what is set on the object; everything else keeps the
//! default of the Kubernetes API.
use vstd::prelude::*;

use crate::string_map::StringMap;

verus! {

/// A Secret.
pub struct SecretManifest {
    pub name: String,
    pub namespace: String,
    pub labels: StringMap<String>,
    pub data: StringMap<Vec<u8>>,
}

/// What a [`SecretManifest`] holds.
#[verifier::ext_equal]
pub struct SecretView {
    pub name: Seq<char>,
    pub namespace: Seq<char>,
    pub labels: Map<Seq<char>, Seq<char>>,
    pub data: Map<Seq<char>, Seq<u8>>,
}

impl View for SecretManifest {
    type V = SecretView;

    open spec fn view(&self) -> SecretView {
        SecretView {
            name: self.name@,
            namespace: self.namespace@,
            labels: self.labels@,
            data: self.data@,
        }
    }
}

/// A volume that is filled from a Secret.
pub struct SecretVolume {
    pub name: String,
    pub secret_name: String,
}

/// What a [`SecretVolume`] holds.
pub struct SecretVolumeView {
    pub name: Seq<char>,
    pub secret_name: Seq<char>,
}

impl DeepView for SecretVolume {
    type V = SecretVolumeView;

    open spec fn deep_view(&self) -> SecretVolumeView {
        SecretVolumeView { name: self.name@, secret_name: self.secret_name@ }
    }
}

/// The place of a volume in a container.
pub struct VolumeMount {
    pub name: String,
    pub mount_path: String,
    pub read_only: bool,
}

/// What a [`VolumeMount`] holds.
pub struct VolumeMountView {
    pub name: Seq<char>,
    pub mount_path: Seq<char>,
    pub read_only: bool,
}

impl DeepView for VolumeMount {
    type V = VolumeMountView;

    open spec fn deep_view(&self) -> VolumeMountView {
        VolumeMountView {
            name: self.name@,
            mount_path: self.mount_path@,
            read_only: self.read_only,
        }
    }
}

/// A container of the Job's pod.
pub struct Container {
    pub name: String,
    pub image: String,
    pub command: Vec<String>,
    pub args: Vec<String>,
    pub volume_mounts: Vec<VolumeMount>,
}

/// What a [`Container`] holds.
#[verifier::ext_equal]
pub struct ContainerView {
    pub name: Seq<char>,
    pub image: Seq<char>,
    pub command: Seq<Seq<char>>,
    pub args: Seq<Seq<char>>,
    pub volume_mounts: Seq<VolumeMountView>,
}

impl DeepView for Container {
    type V = ContainerView;

    open spec fn deep_view(&self) -> ContainerView {
        ContainerView {
            name: self.name@,
            image: self.image@,
            command: self.command.deep_view(),
            args: self.args.deep_view(),
            volume_mounts: self.volume_mounts.deep_view(),
        }
    }
}

/// A Job together with the template of its pod.
pub struct JobManifest {
    pub name: String,
    pub namespace: String,
    pub labels: StringMap<String>,
    pub ttl_seconds_after_finished: i32,
    pub backoff_limit: i32,
    pub pod_labels: StringMap<String>,
    pub restart_policy: String,
    pub containers: Vec<Container>,
    pub volumes: Vec<SecretVolume>,
}

/// What a [`JobManifest`] holds.
#[verifier::ext_equal]
pub struct JobView {
    pub name: Seq<char>,
    pub namespace: Seq<char>,
    pub labels: Map<Seq<char>, Seq<char>>,
    pub ttl_seconds_after_finished: int,
    pub backoff_limit: int,
    pub pod_labels: Map<Seq<char>, Seq<char>>,
    pub restart_policy: Seq<char>,
    pub containers: Seq<ContainerView>,
    pub volumes: Seq<SecretVolumeView>,
}

impl View for JobManifest {
    type V = JobView;

    open spec fn view(&self) -> JobView {
        JobView {
            name: self.name@,
            namespace: self.namespace@,
            labels: self.labels@,
            ttl_seconds_after_finished: self.ttl_seconds_after_finished as int,
            backoff_limit: self.backoff_limit as int,
            pod_labels: self.pod_labels@,
            restart_policy: self.restart_policy@,
            containers: self.containers.deep_view(),
            volumes: self.volumes.deep_view(),
        }
    }
}

} // verus!
