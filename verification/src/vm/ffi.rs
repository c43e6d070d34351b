//! The foreign-function boundary: host-native routines are registered under
//! a name and looked up by it when compiled code calls them. The context
//! handed to a routine gives it the invoked name, read access to the
//! compiled object arenas, an evaluation stack, and the memory manager's
//! container; dispatching the call and awaiting its result is the host
//! runtime's business, not modeled here.

use vstd::prelude::*;
use vstd::string::StringExecFns;
use crate::codegen::VMObjects;
use crate::codegen::FunctionVal;
use crate::value::{Fields, FuncFlag, GosValue, Meta, MetaKind, PackageKey, StaticMeta};

verus! {

/// An evaluation stack of runtime values.
#[derive(Debug)]
pub struct Stack {
    pub inner: Vec<GosValue>,
}

impl Stack {
    pub fn new() -> (r: Stack)
        ensures
            r.inner@ == Seq::<GosValue>::empty(),
    {
        Stack { inner: Vec::new() }
    }
}

/// The memory manager's container of tracked heap values.
#[derive(Debug)]
pub struct GcContainer {
    pub tracked_objs: Vec<GosValue>,
}

impl GcContainer {
    pub fn new() -> (r: GcContainer)
        ensures
            r.tracked_objs@ == Seq::<GosValue>::empty(),
    {
        GcContainer { tracked_objs: Vec::new() }
    }
}

/// What a host-native routine sees when invoked: its registered name, the
/// compiled object arenas, an evaluation stack of its own, and the memory
/// manager's container.
pub struct FfiCtx<'a> {
    pub func_name: &'a str,
    pub vm_objs: &'a VMObjects,
    pub stack: Stack,
    pub gcc: &'a GcContainer,
}

impl<'a> FfiCtx<'a> {
    /// The zero value of a metadata's kind.
    pub fn zero_val(&self, m: &Meta) -> (r: GosValue)
        ensures
            r == m.spec_zero(),
    {
        m.zero()
    }
}

/// The value bound to a registered name: that of the most recently
/// registered routine carrying it, if any.
pub open spec fn reg_lookup<F>(s: Seq<(&str, F)>, name: Seq<char>) -> Option<F>
    decreases s.len(),
{
    if s.len() == 0 {
        None
    } else if s.last().0@ == name {
        Some(s.last().1)
    } else {
        reg_lookup(s.drop_last(), name)
    }
}

/// The registry of host-native routines, by name. The handle type is the
/// host runtime's: whatever it dispatches a call through.
#[derive(Debug)]
pub struct FfiFactory<F> {
    pub registry: Vec<(&'static str, F)>,
}

impl<F: Clone> FfiFactory<F> {
    pub fn new() -> (r: FfiFactory<F>)
        ensures
            r.registry@ == Seq::<(&'static str, F)>::empty(),
    {
        FfiFactory { registry: Vec::new() }
    }

    /// Register a routine under a name; registering one name twice is a
    /// programming error, so a caller must not.
    pub fn register(&mut self, name: &'static str, proto: F)
        requires
            reg_lookup(old(self).registry@, name@) is None,
        ensures
            final(self).registry@ == old(self).registry@.push((name, proto)),
    {
        self.registry.push((name, proto));
    }

    /// Hand out the routine registered under a name, or say that none is.
    pub fn create(&self, name: &str) -> (r: Result<F, String>)
        ensures
            reg_lookup(self.registry@, name@) is Some <==> r is Ok,
            r matches Ok(h) ==> vstd::pervasive::cloned(reg_lookup(self.registry@, name@)->0, h),
            r matches Err(m) ==> m@ == "FFI named "@ + name@ + " not found"@,
    {
        let mut i: usize = self.registry.len();
        proof {
            assert(self.registry@.take(self.registry@.len() as int) =~= self.registry@);
        }
        while i > 0
            invariant
                i <= self.registry@.len(),
                reg_lookup(self.registry@, name@) == reg_lookup(
                    self.registry@.take(i as int),
                    name@,
                ),
            decreases i,
        {
            i = i - 1;
            proof {
                assert(self.registry@.take(i as int + 1).last() == self.registry@[i as int]);
                assert(self.registry@.take(i as int + 1).drop_last() =~= self.registry@.take(
                    i as int,
                ));
            }
            if self.registry[i].0.to_owned() == name.to_owned() {
                return Ok(self.registry[i].1.clone());
            }
        }
        proof {
            assert(self.registry@.take(0) =~= Seq::<(&'static str, F)>::empty());
        }
        Err("FFI named ".to_owned().concat(name).concat(" not found"))
    }
}

/// The compiler's window onto the engine's object arenas, with stand-in
/// pieces for what only an executing program would have: a name, a stack and
/// a container.
#[derive(Debug)]
pub struct CodeGenVMCtx {
    pub vm_objs: VMObjects,
    pub dummy_func_name: &'static str,
    pub dummy_stack: Stack,
    pub dummy_gcc: GcContainer,
}

impl CodeGenVMCtx {
    pub fn new(vm_objs: VMObjects) -> (r: CodeGenVMCtx)
        ensures
            r.vm_objs == vm_objs,
            r.dummy_func_name@ == "dummy_name"@,
            r.dummy_stack.inner@ == Seq::<GosValue>::empty(),
            r.dummy_gcc.tracked_objs@ == Seq::<GosValue>::empty(),
    {
        CodeGenVMCtx {
            vm_objs,
            dummy_func_name: "dummy_name",
            dummy_stack: Stack::new(),
            dummy_gcc: GcContainer::new(),
        }
    }

    /// A foreign-function context over the held arenas, with a fresh stack.
    pub fn ffi_ctx(&self) -> (r: FfiCtx)
        ensures
            r.func_name@ == self.dummy_func_name@,
            r.vm_objs == &self.vm_objs,
            r.stack.inner@ == Seq::<GosValue>::empty(),
            r.gcc == &self.dummy_gcc,
    {
        FfiCtx {
            func_name: self.dummy_func_name,
            vm_objs: &self.vm_objs,
            stack: Stack::new(),
            gcc: &self.dummy_gcc,
        }
    }

    pub fn objects(&self) -> (r: &VMObjects)
        ensures
            r == &self.vm_objs,
    {
        &self.vm_objs
    }

    pub fn objects_mut(&mut self) -> (r: &mut VMObjects)
        ensures
            *r == old(self).vm_objs,
            final(self).vm_objs == *final(r),
            final(self).dummy_func_name == old(self).dummy_func_name,
            final(self).dummy_stack == old(self).dummy_stack,
            final(self).dummy_gcc == old(self).dummy_gcc,
    {
        &mut self.vm_objs
    }

    pub fn metas(&self) -> (r: &Vec<Meta>)
        ensures
            r == &self.vm_objs.metas,
    {
        &self.vm_objs.metas
    }

    pub fn metas_mut(&mut self) -> (r: &mut Vec<Meta>)
        ensures
            *r == old(self).vm_objs.metas,
            final(self).vm_objs.metas == *final(r),
            final(self).vm_objs.functions == old(self).vm_objs.functions,
            final(self).vm_objs.packages == old(self).vm_objs.packages,
            final(self).vm_objs.strings == old(self).vm_objs.strings,
            final(self).vm_objs.s_meta == old(self).vm_objs.s_meta,
            final(self).dummy_func_name == old(self).dummy_func_name,
            final(self).dummy_stack == old(self).dummy_stack,
            final(self).dummy_gcc == old(self).dummy_gcc,
    {
        &mut self.vm_objs.metas
    }

    pub fn functions(&self) -> (r: &Vec<crate::codegen::FunctionVal>)
        ensures
            r == &self.vm_objs.functions,
    {
        &self.vm_objs.functions
    }

    pub fn functions_mut(&mut self) -> (r: &mut Vec<crate::codegen::FunctionVal>)
        ensures
            *r == old(self).vm_objs.functions,
            final(self).vm_objs.functions == *final(r),
            final(self).vm_objs.metas == old(self).vm_objs.metas,
            final(self).vm_objs.packages == old(self).vm_objs.packages,
            final(self).vm_objs.strings == old(self).vm_objs.strings,
            final(self).vm_objs.s_meta == old(self).vm_objs.s_meta,
            final(self).dummy_func_name == old(self).dummy_func_name,
            final(self).dummy_stack == old(self).dummy_stack,
            final(self).dummy_gcc == old(self).dummy_gcc,
    {
        &mut self.vm_objs.functions
    }

    pub fn packages(&self) -> (r: &Vec<crate::codegen::PackageVal>)
        ensures
            r == &self.vm_objs.packages,
    {
        &self.vm_objs.packages
    }

    pub fn packages_mut(&mut self) -> (r: &mut Vec<crate::codegen::PackageVal>)
        ensures
            *r == old(self).vm_objs.packages,
            final(self).vm_objs.packages == *final(r),
            final(self).vm_objs.metas == old(self).vm_objs.metas,
            final(self).vm_objs.functions == old(self).vm_objs.functions,
            final(self).vm_objs.strings == old(self).vm_objs.strings,
            final(self).vm_objs.s_meta == old(self).vm_objs.s_meta,
            final(self).dummy_func_name == old(self).dummy_func_name,
            final(self).dummy_stack == old(self).dummy_stack,
            final(self).dummy_gcc == old(self).dummy_gcc,
    {
        &mut self.vm_objs.packages
    }

    pub fn s_meta(&self) -> (r: &StaticMeta)
        ensures
            r == &self.vm_objs.s_meta,
    {
        &self.vm_objs.s_meta
    }

    pub fn gc_container(&self) -> (r: &GcContainer)
        ensures
            r == &self.dummy_gcc,
    {
        &self.dummy_gcc
    }

    pub fn into_vmo(self) -> (r: VMObjects)
        ensures
            r == self.vm_objs,
    {
        self.vm_objs
    }

    /// File a fresh, empty function record in the functions arena and hand
    /// back its function value. The record keeps its unit — none, for a
    /// routine that belongs to no unit — and the supplied metadata; the
    /// metas arena itself is read, never written, here.
    pub fn function_with_meta(
        &mut self,
        package: Option<PackageKey>,
        meta: Meta,
        _flag: FuncFlag,
    ) -> (r: GosValue)
        ensures
            ({
                let k = old(self).vm_objs.functions@.len();
                let rec = final(self).vm_objs.functions@.last();
                &&& r == GosValue::Function(k as usize)
                &&& final(self).vm_objs.functions@.len() == k + 1
                &&& old(self).vm_objs.functions@.is_prefix_of(final(self).vm_objs.functions@)
                &&& rec.package == package
                &&& rec.meta == Some(meta)
                &&& rec.code@ == Seq::<crate::opcode::CodeData>::empty()
                &&& rec.consts@ == Seq::<GosValue>::empty()
            }),
            final(self).vm_objs.metas@ == old(self).vm_objs.metas@,
            final(self).vm_objs.packages == old(self).vm_objs.packages,
            final(self).vm_objs.strings == old(self).vm_objs.strings,
            final(self).vm_objs.s_meta == old(self).vm_objs.s_meta,
            final(self).dummy_func_name == old(self).dummy_func_name,
            final(self).dummy_stack == old(self).dummy_stack,
            final(self).dummy_gcc == old(self).dummy_gcc,
    {
        let key = self.vm_objs.functions.len();
        let mut val = FunctionVal::new(package);
        val.meta = Some(meta);
        self.vm_objs.functions.push(val);
        proof {
            assert(old(self).vm_objs.functions@ =~= self.vm_objs.functions@.subrange(
                0,
                old(self).vm_objs.functions@.len() as int,
            ));
        }
        GosValue::Function(key)
    }

    /// Record a struct type's field metadata in the metas arena and hand
    /// back the struct metadata built over it.
    pub fn new_struct_meta(&mut self, fields: Fields) -> (r: Meta)
        ensures
            final(self).vm_objs.metas@ == old(self).vm_objs.metas@ + fields@,
            r.kind == MetaKind::Struct,
            final(self).vm_objs.functions == old(self).vm_objs.functions,
            final(self).vm_objs.packages == old(self).vm_objs.packages,
            final(self).vm_objs.strings == old(self).vm_objs.strings,
            final(self).vm_objs.s_meta == old(self).vm_objs.s_meta,
    {
        let mut fs = fields;
        self.vm_objs.metas.append(&mut fs);
        Meta { kind: MetaKind::Struct }
    }
}

} // verus!
