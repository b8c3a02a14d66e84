//! The command that creates a buffer.

use vstd::prelude::*;

verus! {

/// The prefixes that a buffer selects from one storage backend, as text.
#[derive(Debug)]
pub struct FileSystemBufferMetadata {
    pub store: usize,
    pub prefixes: Vec<String>,
}

/// What a `FileSystemBufferMetadata` stands for.
pub struct FileSystemBufferMetadataView {
    pub store: usize,
    pub prefixes: Seq<Seq<char>>,
}

impl View for FileSystemBufferMetadata {
    type V = FileSystemBufferMetadataView;

    open spec fn view(&self) -> FileSystemBufferMetadataView {
        FileSystemBufferMetadataView {
            store: self.store,
            prefixes: self.prefixes@.map_values(|text: String| text@),
        }
    }
}

impl Clone for FileSystemBufferMetadata {
    fn clone(&self) -> (copy: Self)
        ensures
            copy@ == self@,
    {
        let mut prefixes: Vec<String> = Vec::new();
        let mut i: usize = 0;
        while i < self.prefixes.len()
            invariant
                i <= self.prefixes.len(),
                prefixes@ == self.prefixes@.take(i as int),
            decreases self.prefixes.len() - i,
        {
            prefixes.push(self.prefixes[i].clone());
            i = i + 1;
        }
        assert(self.prefixes@.take(i as int) =~= self.prefixes@);
        FileSystemBufferMetadata { store: self.store, prefixes }
    }
}

/// What a new buffer is called and what it selects.
#[derive(Debug)]
pub struct BufferMetadata {
    pub name: String,
    pub common_schema: bool,
    pub file_systems: Vec<FileSystemBufferMetadata>,
}

/// What a `BufferMetadata` stands for.
pub struct BufferMetadataView {
    pub name: Seq<char>,
    pub common_schema: bool,
    pub file_systems: Seq<FileSystemBufferMetadataView>,
}

impl View for BufferMetadata {
    type V = BufferMetadataView;

    open spec fn view(&self) -> BufferMetadataView {
        BufferMetadataView {
            name: self.name@,
            common_schema: self.common_schema,
            file_systems: self.file_systems@.map_values(|part: FileSystemBufferMetadata| part@),
        }
    }
}

impl Clone for BufferMetadata {
    fn clone(&self) -> (copy: Self)
        ensures
            copy@ == self@,
    {
        let mut file_systems: Vec<FileSystemBufferMetadata> = Vec::new();
        let mut i: usize = 0;
        while i < self.file_systems.len()
            invariant
                i <= self.file_systems.len(),
                file_systems@.map_values(|part: FileSystemBufferMetadata| part@)
                    == self.file_systems@.map_values(|part: FileSystemBufferMetadata| part@).take(
                    i as int,
                ),
            decreases self.file_systems.len() - i,
        {
            let ghost before = file_systems@;
            let part = self.file_systems[i].clone();
            file_systems.push(part);
            assert(file_systems@.map_values(|part: FileSystemBufferMetadata| part@)
                =~= before.map_values(|part: FileSystemBufferMetadata| part@).push(part@));
            i = i + 1;
        }
        assert(self.file_systems@.map_values(|part: FileSystemBufferMetadata| part@).take(i as int)
            =~= self.file_systems@.map_values(|part: FileSystemBufferMetadata| part@));
        BufferMetadata {
            name: self.name.clone(),
            common_schema: self.common_schema,
            file_systems,
        }
    }
}

/// The command that creates a buffer.
#[derive(Debug)]
pub struct Create {
    pub metadata: BufferMetadata,
}

impl View for Create {
    type V = BufferMetadataView;

    open spec fn view(&self) -> BufferMetadataView {
        self.metadata@
    }
}

impl Clone for Create {
    fn clone(&self) -> (copy: Self)
        ensures
            copy@ == self@,
    {
        Create { metadata: self.metadata.clone() }
    }
}

} // verus!
