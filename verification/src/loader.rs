//! The dynamic loader: validates a relocatable kernel program image, maps it
//! into the kernel-core memory window, applies relocations, and resolves the
//! image's external references against the runtime-provided API table. On
//! success it exposes symbol lookup and `rebind`, the atomic replacement of
//! a resolved import — the indirection that lets the DMA engine splice
//! recording intercepts in and out without re-linking the image.

use vstd::prelude::*;
use crate::msg::{Image, LoadError, Reloc, Symbol};

verus! {

/// One entry of the fixed API table: a runtime-provided callable address
/// under a well-known name.
#[derive(Clone, Debug)]
pub struct ApiEntry {
    pub name: Vec<u8>,
    pub addr: u32,
}

/// A resolved external reference of the loaded image.
#[derive(Clone, Debug)]
pub struct Import {
    pub name: Vec<u8>,
    pub addr: u32,
}

/// First export named `name`, as an offset into the image.
pub open spec fn find_export(exports: Seq<Symbol>, name: Seq<u8>) -> Option<u32>
    decreases exports.len(),
{
    if exports.len() == 0 {
        None
    } else if exports[0].name@ == name {
        Some(exports[0].offset)
    } else {
        find_export(exports.drop_first(), name)
    }
}

/// First API-table entry named `name`.
pub open spec fn api_lookup(api: Seq<ApiEntry>, name: Seq<u8>) -> Option<u32>
    decreases api.len(),
{
    if api.len() == 0 {
        None
    } else if api[0].name@ == name {
        Some(api[0].addr)
    } else {
        api_lookup(api.drop_first(), name)
    }
}

/// Index of the first import named `name`.
pub open spec fn find_import(imports: Seq<Import>, name: Seq<u8>) -> Option<int>
    decreases imports.len(),
{
    if imports.len() == 0 {
        None
    } else if imports[0].name@ == name {
        Some(0)
    } else {
        match find_import(imports.drop_first(), name) {
            Some(k) => Some(k + 1),
            None => None,
        }
    }
}

/// Name of the first external reference the API table cannot resolve.
pub open spec fn first_unresolved(imports: Seq<Vec<u8>>, api: Seq<ApiEntry>) -> Option<Seq<u8>>
    decreases imports.len(),
{
    if imports.len() == 0 {
        None
    } else if api_lookup(api, imports[0]@) is None {
        Some(imports[0]@)
    } else {
        first_unresolved(imports.drop_first(), api)
    }
}

/// Every exported symbol lies inside the image.
pub open spec fn exports_in_range(exports: Seq<Symbol>, len: nat) -> bool {
    forall|i: int| 0 <= i < exports.len() ==> (#[trigger] exports[i]).offset <= len
}

/// Every relocation patches a whole word inside the image.
pub open spec fn relocs_in_range(relocs: Seq<Reloc>, len: nat) -> bool {
    forall|i: int| 0 <= i < relocs.len() ==> (#[trigger] relocs[i]).offset + 4 <= len
}

/// `mem` with the little-endian bytes of `w` stored at `offset`.
pub open spec fn store_word(mem: Seq<u8>, offset: int, w: u32) -> Seq<u8> {
    mem.update(offset, (w & 0xff) as u8).update(offset + 1, ((w >> 8) & 0xff) as u8).update(
        offset + 2,
        ((w >> 16) & 0xff) as u8,
    ).update(offset + 3, ((w >> 24) & 0xff) as u8)
}

/// The image bytes after the relocations are applied in order: each one
/// stores `base + addend` (wrapping) at its offset.
pub open spec fn apply_relocs(data: Seq<u8>, relocs: Seq<Reloc>, base: u32) -> Seq<u8>
    decreases relocs.len(),
{
    if relocs.len() == 0 {
        data
    } else {
        store_word(
            apply_relocs(data, relocs.drop_last(), base),
            relocs.last().offset as int,
            vstd::wrapping::u32_specs::wrapping_add(base, relocs.last().addend),
        )
    }
}

/// The loaded image: its base address, the mapped (relocated) bytes, the
/// exported symbol table, and the resolved import table.
#[derive(Debug)]
pub struct Library {
    pub base: u32,
    pub memory: Vec<u8>,
    pub exports: Vec<Symbol>,
    pub imports: Vec<Import>,
}

impl Library {
    /// The mapped image stays inside the 32-bit address space and its
    /// symbol table points inside it, so looked-up addresses never wrap.
    pub open spec fn wf(&self) -> bool {
        &&& self.base + self.memory@.len() <= u32::MAX
        &&& exports_in_range(self.exports@, self.memory@.len())
    }

    /// Absolute address of an exported symbol.
    pub fn lookup(&self, name: &[u8]) -> (r: Option<u32>)
        requires
            self.wf(),
        ensures
            r == match find_export(self.exports@, name@) {
                Some(off) => Some((self.base + off) as u32),
                None => None::<u32>,
            },
    {
        proof {
            assert(self.exports@.skip(0) =~= self.exports@);
        }
        let mut i: usize = 0;
        while i < self.exports.len()
            invariant
                0 <= i <= self.exports@.len(),
                self.wf(),
                find_export(self.exports@, name@) == find_export(
                    self.exports@.skip(i as int),
                    name@,
                ),
            decreases self.exports@.len() - i,
        {
            assert(self.exports@.skip(i as int)[0] == self.exports@[i as int]);
            if bytes_eq(self.exports[i].name.as_slice(), name) {
                return Some(self.base + self.exports[i].offset);
            }
            assert(self.exports@.skip(i as int).drop_first() =~= self.exports@.skip(i + 1));
            i = i + 1;
        }
        assert(self.exports@.skip(i as int) =~= Seq::<Symbol>::empty());
        None
    }

    /// Atomically replace the target address of a previously resolved
    /// import; fails, leaving the library unchanged, when no import of that
    /// name exists.
    pub fn rebind(&mut self, name: &[u8], addr: u32) -> (r: Result<(), ()>)
        ensures
            final(self).base == old(self).base,
            final(self).memory == old(self).memory,
            final(self).exports == old(self).exports,
            match find_import(old(self).imports@, name@) {
                Some(k) => r is Ok && rebound(old(self).imports@, final(self).imports@, k, addr),
                None => r is Err && final(self).imports@ == old(self).imports@,
            },
    {
        proof {
            assert(self.imports@.skip(0) =~= self.imports@);
        }
        let mut i: usize = 0;
        while i < self.imports.len()
            invariant
                0 <= i <= self.imports@.len(),
                self == old(self),
                find_import(self.imports@, name@) == match find_import(
                    self.imports@.skip(i as int),
                    name@,
                ) {
                    Some(k) => Some(k + i),
                    None => None::<int>,
                },
            decreases self.imports@.len() - i,
        {
            assert(self.imports@.skip(i as int)[0] == self.imports@[i as int]);
            if bytes_eq(self.imports[i].name.as_slice(), name) {
                let kept = self.imports[i].name.clone();
                let replacement = Import { name: kept, addr };
                self.imports[i] = replacement;
                proof {
                    let k = i as int;
                    assert(find_import(old(self).imports@, name@) == Some(k));
                    assert(forall|j: int|
                        0 <= j < self.imports@.len() && j != k ==> self.imports@[j] == old(
                            self,
                        ).imports@[j]);
                }
                return Ok(());
            }
            assert(self.imports@.skip(i as int).drop_first() =~= self.imports@.skip(i + 1));
            i = i + 1;
        }
        assert(self.imports@.skip(i as int) =~= Seq::<Import>::empty());
        Err(())
    }
}

/// `new` is `old` with the import at `k` re-pointed to `addr`: same names
/// everywhere, every other entry untouched.
pub open spec fn rebound(old_imps: Seq<Import>, new_imps: Seq<Import>, k: int, addr: u32) -> bool {
    &&& new_imps.len() == old_imps.len()
    &&& 0 <= k < old_imps.len()
    &&& new_imps[k].name@ == old_imps[k].name@
    &&& new_imps[k].addr == addr
    &&& forall|j: int| 0 <= j < old_imps.len() && j != k ==> new_imps[j] == old_imps[j]
}

/// `find_import` looks only at names: equally named tables index alike.
pub proof fn lemma_find_import_same_names(a: Seq<Import>, b: Seq<Import>, name: Seq<u8>)
    requires
        a.len() == b.len(),
        forall|j: int| 0 <= j < a.len() ==> (#[trigger] a[j]).name@ == b[j].name@,
    ensures
        find_import(a, name) == find_import(b, name),
    decreases a.len(),
{
    if a.len() != 0 {
        assert(a[0].name@ == b[0].name@);
        assert forall|j: int| 0 <= j < a.drop_first().len() implies (#[trigger] a.drop_first()[j]).name@
            == b.drop_first()[j].name@ by {
            assert(a.drop_first()[j] == a[j + 1]);
            assert(b.drop_first()[j] == b[j + 1]);
        }
        lemma_find_import_same_names(a.drop_first(), b.drop_first(), name);
    }
}

/// Byte-string equality.
pub fn bytes_eq(a: &[u8], b: &[u8]) -> (r: bool)
    ensures
        r == (a@ == b@),
{
    if a.len() != b.len() {
        return false;
    }
    let mut i: usize = 0;
    while i < a.len()
        invariant
            0 <= i <= a@.len(),
            a@.len() == b@.len(),
            forall|j: int| 0 <= j < i ==> a@[j] == b@[j],
        decreases a@.len() - i,
    {
        if a[i] != b[i] {
            return false;
        }
        i = i + 1;
    }
    assert(a@ =~= b@);
    true
}

/// API-table lookup by name.
pub fn api_resolve(api: &Vec<ApiEntry>, name: &[u8]) -> (r: Option<u32>)
    ensures
        r == api_lookup(api@, name@),
{
    proof {
        assert(api@.skip(0) =~= api@);
    }
    let mut i: usize = 0;
    while i < api.len()
        invariant
            0 <= i <= api@.len(),
            api_lookup(api@, name@) == api_lookup(api@.skip(i as int), name@),
        decreases api@.len() - i,
    {
        assert(api@.skip(i as int)[0] == api@[i as int]);
        if bytes_eq(api[i].name.as_slice(), name) {
            return Some(api[i].addr);
        }
        assert(api@.skip(i as int).drop_first() =~= api@.skip(i + 1));
        i = i + 1;
    }
    assert(api@.skip(i as int) =~= Seq::<ApiEntry>::empty());
    None
}

/// Check that every exported symbol lies inside the image.
fn exports_ok(exports: &Vec<Symbol>, len: usize) -> (r: bool)
    ensures
        r == exports_in_range(exports@, len as nat),
{
    let mut i: usize = 0;
    while i < exports.len()
        invariant
            0 <= i <= exports@.len(),
            forall|j: int| 0 <= j < i ==> (#[trigger] exports@[j]).offset <= len,
        decreases exports@.len() - i,
    {
        if (exports[i].offset as u64) > (len as u64) {
            assert(exports@[i as int].offset > len);
            return false;
        }
        i = i + 1;
    }
    true
}

/// Resolve every external reference, or name the first that fails.
fn resolve_imports(names: &Vec<Vec<u8>>, api: &Vec<ApiEntry>) -> (r: Result<Vec<Import>, Vec<u8>>)
    ensures
        match first_unresolved(names@, api@) {
            Some(missing) => r matches Err(n) && n@ == missing,
            None => r matches Ok(imports) && imports@.len() == names@.len() && forall|i: int|
                0 <= i < names@.len() ==> (#[trigger] imports@[i]).name@ == names@[i]@
                    && imports@[i].addr == api_lookup(api@, names@[i]@)->0,
        },
{
    proof {
        assert(names@.skip(0) =~= names@);
    }
    let mut imports: Vec<Import> = Vec::new();
    let mut i: usize = 0;
    while i < names.len()
        invariant
            0 <= i <= names@.len(),
            first_unresolved(names@, api@) == first_unresolved(names@.skip(i as int), api@),
            imports@.len() == i,
            forall|j: int|
                0 <= j < i ==> (#[trigger] imports@[j]).name@ == names@[j]@ && imports@[j].addr
                    == api_lookup(api@, names@[j]@)->0,
        decreases names@.len() - i,
    {
        assert(names@.skip(i as int)[0] == names@[i as int]);
        match api_resolve(api, names[i].as_slice()) {
            Some(addr) => {
                imports.push(Import { name: names[i].clone(), addr });
            },
            None => {
                return Err(names[i].clone());
            },
        }
        assert(names@.skip(i as int).drop_first() =~= names@.skip(i + 1));
        i = i + 1;
    }
    assert(names@.skip(i as int) =~= Seq::<Vec<u8>>::empty());
    Ok(imports)
}

/// Store the little-endian bytes of `w` at `offset`.
fn store_u32_le(mem: &mut Vec<u8>, offset: usize, w: u32)
    requires
        offset + 4 <= old(mem)@.len(),
    ensures
        final(mem)@ == store_word(old(mem)@, offset as int, w),
{
    let n = mem.len();
    assert(offset + 4 <= n);
    mem[offset] = (w & 0xff) as u8;
    mem[offset + 1] = ((w >> 8) & 0xff) as u8;
    mem[offset + 2] = ((w >> 16) & 0xff) as u8;
    mem[offset + 3] = ((w >> 24) & 0xff) as u8;
}

/// Apply every relocation, or reject the image if one patches outside it.
fn relocate(data: Vec<u8>, relocs: &Vec<Reloc>, base: u32) -> (r: Result<Vec<u8>, ()>)
    ensures
        if relocs_in_range(relocs@, data@.len()) {
            r matches Ok(mem) && mem@ == apply_relocs(data@, relocs@, base) && mem@.len()
                == data@.len()
        } else {
            r is Err
        },
{
    let mut i: usize = 0;
    while i < relocs.len()
        invariant
            0 <= i <= relocs@.len(),
            forall|j: int|
                0 <= j < i ==> (#[trigger] relocs@[j]).offset + 4 <= data@.len(),
        decreases relocs@.len() - i,
    {
        if (relocs[i].offset as u64) + 4 > (data.len() as u64) {
            assert(relocs@[i as int].offset + 4 > data@.len());
            return Err(());
        }
        i = i + 1;
    }
    let mut mem = data;
    let mut i: usize = 0;
    while i < relocs.len()
        invariant
            0 <= i <= relocs@.len(),
            relocs_in_range(relocs@, data@.len()),
            mem@.len() == data@.len(),
            mem@ == apply_relocs(data@, relocs@.take(i as int), base),
        decreases relocs@.len() - i,
    {
        store_u32_le(&mut mem, relocs[i].offset as usize, base.wrapping_add(relocs[i].addend));
        i = i + 1;
        assert(relocs@.take(i as int).drop_last() =~= relocs@.take(i - 1));
        assert(relocs@.take(i as int).last() == relocs@[i - 1]);
    }
    assert(relocs@.take(relocs@.len() as int) =~= relocs@);
    Ok(mem)
}

/// Validate `image`, resolve its external references against `api`, apply
/// its relocations, and map it at `base`. Failures are reported, not fatal:
/// a malformed image, an unresolvable reference (the first one is named),
/// or an out-of-range relocation leave the runtime core free to retry with
/// a fresh image.
pub fn load(image: Image, base: u32, window_size: usize, api: &Vec<ApiEntry>) -> (r: Result<
    Library,
    LoadError,
>)
    requires
        base + window_size <= u32::MAX,
    ensures
        ({
            let malformed = image.data@.len() > window_size || !exports_in_range(
                image.exports@,
                image.data@.len(),
            );
            let unresolved = first_unresolved(image.imports@, api@);
            let relocs_ok = relocs_in_range(image.relocs@, image.data@.len());
            if malformed {
                r matches Err(LoadError::InvalidFormat)
            } else if unresolved is Some {
                r matches Err(LoadError::Unresolved(n)) && n@ == unresolved->0
            } else if !relocs_ok {
                r matches Err(LoadError::RelocationOutOfRange)
            } else {
                r matches Ok(lib) && {
                    &&& lib.wf()
                    &&& lib.base == base
                    &&& lib.memory@ == apply_relocs(image.data@, image.relocs@, base)
                    &&& lib.memory@.len() == image.data@.len()
                    &&& lib.exports == image.exports
                    &&& lib.imports@.len() == image.imports@.len()
                    &&& forall|i: int|
                        0 <= i < image.imports@.len() ==> (#[trigger] lib.imports@[i]).name@
                            == image.imports@[i]@ && lib.imports@[i].addr == api_lookup(
                            api@,
                            image.imports@[i]@,
                        )->0
                }
            }
        }),
{
    if image.data.len() > window_size {
        return Err(LoadError::InvalidFormat);
    }
    if !exports_ok(&image.exports, image.data.len()) {
        return Err(LoadError::InvalidFormat);
    }
    let imports = match resolve_imports(&image.imports, api) {
        Ok(imports) => imports,
        Err(name) => {
            return Err(LoadError::Unresolved(name));
        },
    };
    let memory = match relocate(image.data, &image.relocs, base) {
        Ok(memory) => memory,
        Err(()) => {
            return Err(LoadError::RelocationOutOfRange);
        },
    };
    Ok(Library { base, memory, exports: image.exports, imports })
}

} // verus!
