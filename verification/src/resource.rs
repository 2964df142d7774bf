use vstd::prelude::*;
use crate::binding::{BindingKind, BindingType};
use crate::collection::ResourceCollection;
use crate::error::RegistryError;

verus! {

/// A GPU buffer, by the handle under which the application keeps it.
#[derive(Clone, Copy, Debug, PartialEq, Eq)]
pub struct Buffer {
    pub handle: u64,
}

/// A texture, by the handles of its two bindable parts.
#[derive(Clone, Copy, Debug, PartialEq, Eq)]
pub struct Texture {
    pub view: u64,
    pub sampler: u64,
}

/// Anything else that is kept in the registry and never bound to a
/// shader: a clock, a window, input state.
#[derive(Clone, Copy, Debug, PartialEq, Eq)]
pub struct Opaque {
    pub handle: u64,
}

/// What the shader-resource registry stores under one id.
#[derive(Clone, Copy, Debug, PartialEq, Eq)]
pub enum ShaderResource {
    Buffer(Buffer),
    Texture(Texture),
    Other(Opaque),
}

/// What a slot of a bind group is bound to.
#[derive(Clone, Copy, Debug, PartialEq, Eq)]
pub enum BindingResource {
    /// The whole of the buffer with this handle.
    Buffer(u64),
    /// The texture view with this handle.
    TextureView(u64),
    /// The sampler with this handle.
    Sampler(u64),
}

/// A concrete kind of stored resource.
pub trait Resource: Sized {
    /// The stored value seen as this kind, if it is of this kind.
    spec fn spec_downcast(stored: ShaderResource) -> Option<Self>;

    /// The stored value with `value` in the place of what `spec_downcast`
    /// finds.
    spec fn spec_replace(stored: ShaderResource, value: Self) -> ShaderResource;

    /// What a value of this kind is bound as by itself.
    spec fn spec_binding(&self) -> Result<BindingResource, RegistryError>;

    /// The stored value seen as this kind, if it is of this kind.
    fn downcast(stored: &ShaderResource) -> (found: Option<&Self>)
        ensures
            match found {
                Some(value) => Self::spec_downcast(*stored) == Some(*value),
                None => Self::spec_downcast(*stored).is_none(),
            },
    ;

    /// The stored value seen as this kind, for writing.
    fn downcast_mut(stored: &mut ShaderResource) -> (found: Option<&mut Self>)
        ensures
            match found {
                Some(value) => Self::spec_downcast(*old(stored)) == Some(*value)
                    && *final(stored) == Self::spec_replace(*old(stored), *final(value)),
                None => Self::spec_downcast(*old(stored)).is_none() && *final(stored) == *old(
                    stored,
                ),
            },
    ;

    /// The binding of the value by itself. Only certain kinds can be
    /// bound; the others report `NotBindable`.
    fn binding(&self) -> (bound: Result<BindingResource, RegistryError>)
        ensures
            bound == self.spec_binding(),
    ;
}

impl Resource for Buffer {
    open spec fn spec_downcast(stored: ShaderResource) -> Option<Buffer> {
        match stored {
            ShaderResource::Buffer(b) => Some(b),
            _ => None,
        }
    }

    open spec fn spec_replace(stored: ShaderResource, value: Buffer) -> ShaderResource {
        ShaderResource::Buffer(value)
    }

    open spec fn spec_binding(&self) -> Result<BindingResource, RegistryError> {
        Ok(BindingResource::Buffer(self.handle))
    }

    fn downcast(stored: &ShaderResource) -> (found: Option<&Buffer>) {
        match stored {
            ShaderResource::Buffer(b) => Some(b),
            _ => None,
        }
    }

    fn downcast_mut(stored: &mut ShaderResource) -> (found: Option<&mut Buffer>) {
        match stored {
            ShaderResource::Buffer(b) => Some(b),
            _ => None,
        }
    }

    fn binding(&self) -> (bound: Result<BindingResource, RegistryError>) {
        Ok(BindingResource::Buffer(self.handle))
    }
}

impl Resource for Texture {
    open spec fn spec_downcast(stored: ShaderResource) -> Option<Texture> {
        match stored {
            ShaderResource::Texture(t) => Some(t),
            _ => None,
        }
    }

    open spec fn spec_replace(stored: ShaderResource, value: Texture) -> ShaderResource {
        ShaderResource::Texture(value)
    }

    open spec fn spec_binding(&self) -> Result<BindingResource, RegistryError> {
        Err(RegistryError::NotBindable)
    }

    fn downcast(stored: &ShaderResource) -> (found: Option<&Texture>) {
        match stored {
            ShaderResource::Texture(t) => Some(t),
            _ => None,
        }
    }

    fn downcast_mut(stored: &mut ShaderResource) -> (found: Option<&mut Texture>) {
        match stored {
            ShaderResource::Texture(t) => Some(t),
            _ => None,
        }
    }

    fn binding(&self) -> (bound: Result<BindingResource, RegistryError>) {
        Err(RegistryError::NotBindable)
    }
}

impl Resource for Opaque {
    open spec fn spec_downcast(stored: ShaderResource) -> Option<Opaque> {
        match stored {
            ShaderResource::Other(o) => Some(o),
            _ => None,
        }
    }

    open spec fn spec_replace(stored: ShaderResource, value: Opaque) -> ShaderResource {
        ShaderResource::Other(value)
    }

    open spec fn spec_binding(&self) -> Result<BindingResource, RegistryError> {
        Err(RegistryError::NotBindable)
    }

    fn downcast(stored: &ShaderResource) -> (found: Option<&Opaque>) {
        match stored {
            ShaderResource::Other(o) => Some(o),
            _ => None,
        }
    }

    fn downcast_mut(stored: &mut ShaderResource) -> (found: Option<&mut Opaque>) {
        match stored {
            ShaderResource::Other(o) => Some(o),
            _ => None,
        }
    }

    fn binding(&self) -> (bound: Result<BindingResource, RegistryError>) {
        Err(RegistryError::NotBindable)
    }
}

impl ShaderResource {
    /// The binding of the stored value by itself: that of the kind it is of.
    pub open spec fn spec_binding(self) -> Result<BindingResource, RegistryError> {
        match self {
            ShaderResource::Buffer(b) => b.spec_binding(),
            ShaderResource::Texture(t) => t.spec_binding(),
            ShaderResource::Other(o) => o.spec_binding(),
        }
    }

    /// What a slot of type `ty` is bound to when this value backs it.
    ///
    /// A texture backs two kinds of slot: a sampler slot takes its
    /// sampler, a texture slot its view. For both the value must be a
    /// texture. Every other slot takes the binding of the value by itself.
    pub open spec fn spec_binding_for(self, ty: BindingType) -> Result<
        BindingResource,
        RegistryError,
    > {
        match ty.spec_kind() {
            BindingKind::Sampler => match Texture::spec_downcast(self) {
                Some(t) => Ok(BindingResource::Sampler(t.sampler)),
                None => Err(RegistryError::WrongType),
            },
            BindingKind::Texture => match Texture::spec_downcast(self) {
                Some(t) => Ok(BindingResource::TextureView(t.view)),
                None => Err(RegistryError::WrongType),
            },
            _ => self.spec_binding(),
        }
    }

    /// The binding of the stored value by itself.
    pub fn binding(&self) -> (bound: Result<BindingResource, RegistryError>)
        ensures
            bound == self.spec_binding(),
    {
        match self {
            ShaderResource::Buffer(b) => b.binding(),
            ShaderResource::Texture(t) => t.binding(),
            ShaderResource::Other(o) => o.binding(),
        }
    }

    /// What a slot of type `ty` is bound to when this value backs it.
    pub fn binding_for(&self, ty: &BindingType) -> (bound: Result<BindingResource, RegistryError>)
        ensures
            bound == self.spec_binding_for(*ty),
    {
        match ty.kind() {
            BindingKind::Sampler => match Texture::downcast(self) {
                Some(t) => Ok(BindingResource::Sampler(t.sampler)),
                None => Err(RegistryError::WrongType),
            },
            BindingKind::Texture => match Texture::downcast(self) {
                Some(t) => Ok(BindingResource::TextureView(t.view)),
                None => Err(RegistryError::WrongType),
            },
            _ => self.binding(),
        }
    }
}

impl ResourceCollection<ShaderResource> {
    /// What `downcast_ref` returns for `index`.
    pub open spec fn spec_downcast<U: Resource>(&self, index: usize) -> Result<U, RegistryError> {
        match self.spec_get(index) {
            Err(e) => Err(e),
            Ok(stored) => match U::spec_downcast(stored) {
                Some(value) => Ok(value),
                None => Err(RegistryError::WrongType),
            },
        }
    }

    /// The value stored under `index`, as the kind `U`.
    pub fn downcast_ref<U: Resource>(&self, index: usize) -> (found: Result<&U, RegistryError>)
        ensures
            match found {
                Ok(value) => self.spec_downcast::<U>(index) == Ok::<U, RegistryError>(*value),
                Err(e) => self.spec_downcast::<U>(index) == Err::<U, RegistryError>(e),
            },
    {
        match self.get(index) {
            Err(e) => Err(e),
            Ok(stored) => match U::downcast(stored) {
                Some(value) => Ok(value),
                None => Err(RegistryError::WrongType),
            },
        }
    }

    /// The value stored under `index`, as the kind `U`, for writing.
    pub fn downcast_mut<U: Resource>(&mut self, index: usize) -> (found: Result<
        &mut U,
        RegistryError,
    >)
        ensures
            final(self).names() == old(self).names(),
            final(self).free_ids() == old(self).free_ids(),
            final(self).next_id() == old(self).next_id(),
            final(self).wf() == old(self).wf(),
            match found {
                Ok(value) => {
                    &&& old(self).spec_downcast::<U>(index) == Ok::<U, RegistryError>(*value)
                    &&& final(self)@ == old(self)@.update(
                        index as int,
                        U::spec_replace(old(self)@[index as int], *final(value)),
                    )
                },
                Err(e) => {
                    &&& old(self).spec_downcast::<U>(index) == Err::<U, RegistryError>(e)
                    &&& final(self)@ == old(self)@
                },
            },
    {
        match self.get_mut(index) {
            Err(e) => Err(e),
            Ok(stored) => match U::downcast_mut(stored) {
                Some(value) => Ok(value),
                None => Err(RegistryError::WrongType),
            },
        }
    }
}

} // verus!
