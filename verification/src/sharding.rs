//! Logical device meshes for distributed execution: named mesh dimensions, a
//! validated N-dimensional arrangement of devices, and the per-dimension
//! distribution choices of a sharded tensor.
//!
//! The dimension map is kept as an association list in insertion order whose
//! keys — the dimension names — are unique, the two facts a hash map would
//! otherwise provide.

use vstd::prelude::*;
use vstd::string::StringExecFns;

verus! {

/// A logical mesh dimension, identified by a unique name.
///
/// Mesh dimensions define the logical structure of a device mesh: they
/// organize parallel workloads — data, tensor, or pipeline parallelism —
/// across the mesh, and their names give sharding an unambiguous mapping.
#[derive(PartialEq, Eq, Hash, Debug)]
pub struct MeshDim {
    /// The name that uniquely identifies the mesh dimension.
    pub name: String,
}

impl View for MeshDim {
    type V = Seq<char>;

    open spec fn view(&self) -> Seq<char> {
        self.name@
    }
}

impl Clone for MeshDim {
    fn clone(&self) -> (r: Self)
        ensures
            r == self,
    {
        MeshDim { name: self.name.clone() }
    }
}

impl MeshDim {
    /// A mesh dimension with the given name.
    pub fn new(name: &str) -> (r: Self)
        ensures
            r@ == name@,
    {
        MeshDim { name: String::from_str(name) }
    }
}

/// No two entries of a dimension map share a name.
pub open spec fn keys_unique(dims: Seq<(MeshDim, usize)>) -> bool {
    forall|i: int, j: int| 0 <= i < j < dims.len() ==> #[trigger] dims[i].0@ != #[trigger] dims[j].0@
}

/// Some entry of a dimension map names a mesh index at or beyond the rank.
pub open spec fn has_out_of_bounds_index(dims: Seq<(MeshDim, usize)>, ndim: int) -> bool {
    exists|i: int| 0 <= i < dims.len() && (#[trigger] dims[i]).1 >= ndim
}

/// Two entries of a dimension map name the same mesh index.
pub open spec fn has_duplicate_index(dims: Seq<(MeshDim, usize)>) -> bool {
    exists|i: int, j: int| 0 <= i < j < dims.len() && (#[trigger] dims[i]).1 == (#[trigger] dims[j]).1
}

/// A dimension map after an insert-or-update: a name already present keeps its
/// position and first-inserted key and takes the new index; an absent name is
/// appended.
pub open spec fn dims_inserted(
    dims: Seq<(MeshDim, usize)>,
    dim: MeshDim,
    idx: usize,
) -> Seq<(MeshDim, usize)> {
    if exists|i: int| 0 <= i < dims.len() && (#[trigger] dims[i]).0@ == dim@ {
        let i = choose|i: int| 0 <= i < dims.len() && (#[trigger] dims[i]).0@ == dim@;
        dims.update(i, (dims[i].0, idx))
    } else {
        dims.push((dim, idx))
    }
}

/// The number of device slots a mesh shape calls for: the product of its
/// extents.
pub open spec fn shape_product(shape: Seq<usize>) -> int
    decreases shape.len(),
{
    if shape.len() == 0 {
        1
    } else {
        shape_product(shape.drop_last()) * shape.last()
    }
}

/// Every prefix of the shape has a product a machine word can hold, as the
/// running product computes them left to right.
pub open spec fn prefix_products_fit(shape: Seq<usize>) -> bool {
    forall|k: int| 0 <= k <= shape.len() ==> #[trigger] shape_product(shape.take(k)) <= usize::MAX
}

/// Insert-or-update one mapping of a dimension map, keyed by dimension name.
fn dims_insert(dims: &mut Vec<(MeshDim, usize)>, dim: MeshDim, idx: usize)
    requires
        keys_unique(old(dims)@),
    ensures
        final(dims)@ == dims_inserted(old(dims)@, dim, idx),
        keys_unique(final(dims)@),
{
    let ghost orig = old(dims)@;
    let mut i: usize = 0;
    let n: usize = dims.len();
    while i < n
        invariant
            orig == old(dims)@,
            keys_unique(orig),
            dims@ == orig,
            n == orig.len(),
            i <= n,
            forall|j: int| 0 <= j < i ==> (#[trigger] orig[j]).0@ != dim@,
        decreases n - i,
    {
        if dims[i].0.name == dim.name {
            let key = dims[i].0.clone();
            dims.set(i, (key, idx));
            proof {
                assert(orig[i as int].0@ == dim@);
                assert forall|j: int| 0 <= j < orig.len() && (#[trigger] orig[j]).0@ == dim@
                    implies j == i as int by {
                    if j != i as int {
                        if j < i as int {
                            assert(orig[j].0@ != orig[i as int].0@);
                        } else {
                            assert(orig[i as int].0@ != orig[j].0@);
                        }
                    }
                }
                let chosen = choose|i2: int|
                    0 <= i2 < orig.len() && (#[trigger] orig[i2]).0@ == dim@;
                assert(chosen == i as int);
                assert(dims@ == dims_inserted(orig, dim, idx));
            }
            return;
        }
        i += 1;
    }
    dims.push((dim, idx));
}

/// A logical arrangement of devices used for parallel computation.
///
/// A device mesh is a structured, N-dimensional topology over a set of
/// physical devices, with each mesh dimension given a unique name. The mesh is
/// the basis for tensor sharding: dimension names map tensor dimensions to
/// mesh dimensions unambiguously. The logical arrangement need not correspond
/// to physical layout.
#[derive(Clone, Debug)]
pub struct DeviceMesh<T> {
    /// Physical devices in an n-dimensional logical arrangement.
    pub devices: Vec<T>,
    /// Shape of the logical mesh.
    pub shape: Vec<usize>,
    /// Maps dimension names to their indices in the mesh.
    pub dims: Vec<(MeshDim, usize)>,
}

/// Errors when constructing a device mesh: invalid dimension mappings, or a
/// mismatch between the device count and the mesh shape.
#[derive(Debug)]
pub enum DeviceMeshError {
    /// An invalid dimension was specified.
    InvalidDimension(String),
    /// The mesh configuration is invalid.
    InvalidMesh(String),
}

/// A builder for a [`DeviceMesh`]: devices and a shape up front, then one
/// dimension mapping per mesh axis, then a validating build.
#[derive(Clone, Debug)]
pub struct DeviceMeshBuilder<T> {
    /// Physical devices in an n-dimensional logical arrangement.
    pub devices: Vec<T>,
    /// Shape of the logical mesh.
    pub shape: Vec<usize>,
    /// Maps dimension names to their indices in the mesh.
    pub dims: Vec<(MeshDim, usize)>,
}

impl<T> DeviceMeshBuilder<T> {
    /// A builder over the given devices and mesh shape, with no dimension
    /// mapped yet.
    pub fn new(devices: Vec<T>, shape: Vec<usize>) -> (r: Self)
        ensures
            r.devices == devices,
            r.shape == shape,
            r.dims@ == Seq::<(MeshDim, usize)>::empty(),
    {
        DeviceMeshBuilder { devices, shape, dims: Vec::new() }
    }

    /// Map a mesh dimension to an index of the mesh shape. Mapping a name
    /// again replaces its index; validation of the indices happens at build
    /// time.
    pub fn with_dim(self, idx: usize, dim: MeshDim) -> (r: Self)
        requires
            keys_unique(self.dims@),
        ensures
            r.devices == self.devices,
            r.shape == self.shape,
            r.dims@ == dims_inserted(self.dims@, dim, idx),
            keys_unique(r.dims@),
    {
        let DeviceMeshBuilder { devices, shape, mut dims } = self;
        dims_insert(&mut dims, dim, idx);
        DeviceMeshBuilder { devices, shape, dims }
    }

    /// Build the device mesh, validating the configuration: every mapped
    /// index must lie within the mesh rank and be mapped only once, every axis
    /// of the shape must be mapped, and the device count must equal the number
    /// of slots the shape calls for.
    pub fn build(self) -> (r: Result<DeviceMesh<T>, DeviceMeshError>)
        requires
            keys_unique(self.dims@),
            prefix_products_fit(self.shape@),
        ensures
            r is Ok <==> {
                &&& !has_out_of_bounds_index(self.dims@, self.shape@.len() as int)
                &&& !has_duplicate_index(self.dims@)
                &&& self.dims@.len() == self.shape@.len()
                &&& self.devices@.len() == shape_product(self.shape@)
            },
            r is Ok ==> {
                &&& r->Ok_0.devices == self.devices
                &&& r->Ok_0.shape == self.shape
                &&& r->Ok_0.dims == self.dims
            },
            (has_out_of_bounds_index(self.dims@, self.shape@.len() as int) || has_duplicate_index(
                self.dims@,
            )) <==> r matches Err(DeviceMeshError::InvalidDimension(_)),
            r matches Err(DeviceMeshError::InvalidMesh(_)) ==> !has_out_of_bounds_index(
                self.dims@,
                self.shape@.len() as int,
            ) && !has_duplicate_index(self.dims@) && (self.dims@.len() != self.shape@.len()
                || self.devices@.len() != shape_product(self.shape@)),
    {
        let ndim: usize = self.shape.len();

        let mut seen: Vec<bool> = Vec::new();
        let mut t: usize = 0;
        while t < ndim
            invariant
                t <= ndim,
                seen@.len() == t,
                forall|u: int| 0 <= u < t ==> !(#[trigger] seen@[u]),
            decreases ndim - t,
        {
            seen.push(false);
            t += 1;
        }

        let mut j: usize = 0;
        while j < self.dims.len()
            invariant
                j <= self.dims@.len(),
                seen@.len() == ndim,
                ndim == self.shape@.len(),
                forall|a: int| 0 <= a < j ==> (#[trigger] self.dims@[a]).1 < ndim,
                forall|a: int, b: int|
                    0 <= a < b < j ==> (#[trigger] self.dims@[a]).1 != (#[trigger] self.dims@[b]).1,
                forall|u: int|
                    0 <= u < ndim ==> (#[trigger] seen@[u] <==> exists|a: int|
                        0 <= a < j && (#[trigger] self.dims@[a]).1 == u),
            decreases self.dims@.len() - j,
        {
            let idx: usize = self.dims[j].1;
            if idx >= ndim {
                return Err(
                    DeviceMeshError::InvalidDimension(
                        String::from_str("a mesh dimension index exceeds the mesh shape"),
                    ),
                );
            }
            if seen[idx] {
                return Err(
                    DeviceMeshError::InvalidDimension(
                        String::from_str("a mesh index is mapped by more than one dimension"),
                    ),
                );
            }
            seen.set(idx, true);
            j += 1;
        }

        if self.dims.len() != ndim {
            return Err(
                DeviceMeshError::InvalidMesh(
                    String::from_str("not all mesh dimensions are mapped"),
                ),
            );
        }

        let mut expected_devices: usize = 1;
        let mut s: usize = 0;
        while s < ndim
            invariant
                s <= ndim,
                ndim == self.shape@.len(),
                prefix_products_fit(self.shape@),
                expected_devices == shape_product(self.shape@.take(s as int)),
            decreases ndim - s,
        {
            proof {
                assert(self.shape@.take(s + 1).drop_last() =~= self.shape@.take(s as int));
                assert(shape_product(self.shape@.take(s + 1)) == shape_product(
                    self.shape@.take(s as int),
                ) * self.shape@[s as int]);
            }
            expected_devices = expected_devices * self.shape[s];
            s += 1;
        }
        proof {
            assert(self.shape@.take(ndim as int) =~= self.shape@);
        }

        if self.devices.len() != expected_devices {
            return Err(
                DeviceMeshError::InvalidMesh(
                    String::from_str("the device count does not match the mesh shape"),
                ),
            );
        }

        Ok(DeviceMesh { devices: self.devices, shape: self.shape, dims: self.dims })
    }
}

/// How a single tensor dimension is distributed.
#[derive(Clone, Debug, PartialEq, Eq)]
pub enum DimDistribution {
    /// The dimension is sharded across a specific mesh dimension.
    Sharded(MeshDim),
    /// The dimension is replicated (not sharded).
    Replicated,
}

/// How a tensor is distributed across the devices of a mesh: one distribution
/// choice per tensor dimension.
#[derive(Clone, Debug)]
pub struct ShardingSpec<T> {
    /// Distribution pattern for each tensor dimension.
    pub dim_distributions: Vec<DimDistribution>,
    /// The device mesh the tensor is distributed over.
    pub device_mesh: DeviceMesh<T>,
}

/// A tensor distributed — sharded or replicated — across multiple devices: a
/// local shard of backend data, the specification of how the full tensor is
/// partitioned, and the global shape across all devices. The shard's data
/// belongs to the compute backend; this engine only carries it.
#[derive(Debug)]
pub struct ShardedTensor<S, T> {
    /// Local shard of the tensor.
    pub local_shard: S,
    /// Specification of how this tensor is sharded.
    pub sharding_spec: ShardingSpec<T>,
    /// Global shape of the tensor (across all devices).
    pub global_shape: Vec<usize>,
}

} // verus!
