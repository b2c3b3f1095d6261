use rustfs::block::Block;
use rustfs::byte::Byte;
use rustfs::cachinginodestore::{write_back, CachingInodeStore, MAX_CAPACITY};
use rustfs::error::IoError;
use rustfs::inode::{Ino, Inode};
use rustfs::inodestore::{InodeStore, MemoryStore};
use rustfs::volumeinodestore::VolumeInodeStore;

/// A store that records every call made to it.
struct Recording {
    inner: MemoryStore,
    puts: Vec<Inode>,
    gets: Vec<Ino>,
    failing: bool,
}

impl Recording {
    fn new() -> Recording {
        Recording { inner: MemoryStore::new(), puts: Vec::new(), gets: Vec::new(), failing: false }
    }
}

impl InodeStore for Recording {
    fn put(&mut self, inode: &Inode) -> Result<(), IoError> {
        self.puts.push(inode.clone());
        if self.failing {
            return Err(IoError::Other);
        }
        self.inner.put(inode)
    }

    fn get(&mut self, ino: Ino) -> Result<Option<Inode>, IoError> {
        self.gets.push(ino);
        if self.failing {
            return Err(IoError::PermissionDenied);
        }
        self.inner.get(ino)
    }
}

fn inode(ino: u64, size: u64) -> Inode {
    let mut inode = Inode::new(Ino::new(ino));
    inode.size = Byte::new(size);
    inode
}

#[test]
fn another_inode_pushes_the_first_to_the_backend() {
    let a = inode(1, 10);
    let b = inode(2, 20);
    let mut store = CachingInodeStore::new(Recording::new(), 1);
    assert_eq!(Ok(()), store.put(&a));
    assert_eq!(Ok(()), store.put(&b));
    let backend = store.into_backend();
    assert_eq!(vec![a], backend.puts);
    assert!(backend.gets.is_empty());
}

#[test]
fn the_same_inode_again_reaches_no_backend() {
    let a = inode(1, 10);
    let newer = inode(1, 11);
    let mut store = CachingInodeStore::new(Recording::new(), 1);
    assert_eq!(Ok(()), store.put(&a));
    assert_eq!(Ok(()), store.put(&newer));
    assert_eq!(Ok(Some(newer)), store.get(Ino::new(1)));
    let backend = store.into_backend();
    assert!(backend.puts.is_empty());
    assert!(backend.gets.is_empty());
}

#[test]
fn a_dropped_inode_is_got_from_the_backend() {
    let a = inode(1, 10);
    let b = inode(2, 20);
    let mut store = CachingInodeStore::new(Recording::new(), 1);
    store.put(&a).unwrap();
    store.put(&b).unwrap();
    // getting `a` brings it back into the cache, which drops `b`
    assert_eq!(Ok(Some(a.clone())), store.get(Ino::new(1)));
    assert_eq!(Ok(Some(a.clone())), store.get(Ino::new(1)));
    let backend = store.into_backend();
    assert_eq!(vec![a, b], backend.puts);
    assert_eq!(vec![Ino::new(1)], backend.gets);
}

#[test]
fn the_least_recently_used_inode_is_dropped() {
    let a = inode(1, 10);
    let b = inode(2, 20);
    let c = inode(3, 30);
    let d = inode(4, 40);
    let mut store = CachingInodeStore::new(Recording::new(), 2);
    store.put(&a).unwrap();
    store.put(&b).unwrap();
    // `a` is used, so that `b` is the least recently used one
    assert_eq!(Ok(Some(a.clone())), store.get(Ino::new(1)));
    store.put(&c).unwrap();
    // and now `a` is
    store.put(&d).unwrap();
    let backend = store.into_backend();
    assert_eq!(vec![b, a], backend.puts);
    assert!(backend.gets.is_empty());
}

#[test]
fn an_inode_that_is_nowhere_is_none() {
    let mut store = CachingInodeStore::new(Recording::new(), 3);
    assert_eq!(Ok(None), store.get(Ino::new(7)));
    assert_eq!(Ok(None), store.get(Ino::new(7)));
    let backend = store.into_backend();
    assert!(backend.puts.is_empty());
    assert_eq!(vec![Ino::new(7), Ino::new(7)], backend.gets);
}

#[test]
fn a_failing_backend_fails_the_put_that_drops() {
    let mut backend = Recording::new();
    backend.failing = true;
    let mut store = CachingInodeStore::new(backend, 1);
    assert_eq!(Ok(()), store.put(&inode(1, 10)));
    assert_eq!(Ok(()), store.put(&inode(1, 11)));
    assert_eq!(Err(IoError::Other), store.put(&inode(2, 20)));
    assert_eq!(Err(IoError::PermissionDenied), store.get(Ino::new(5)));
    assert_eq!(Ok(Some(inode(2, 20))), store.get(Ino::new(2)));
}

#[test]
fn a_cache_over_memory() {
    let mut store = CachingInodeStore::new(MemoryStore::new(), 2);
    for number in 0..10 {
        store.put(&inode(number, number * 3)).unwrap();
    }
    for number in 0..10 {
        assert_eq!(Ok(Some(inode(number, number * 3))), store.get(Ino::new(number)));
    }
    assert_eq!(Ok(None), store.get(Ino::new(10)));
    let backend = store.into_backend();
    assert_eq!(10, backend.len());
}

#[test]
fn a_cache_over_a_volume_holds_what_was_put() {
    let mut store = CachingInodeStore::new(VolumeInodeStore::new(vec![0u8; 4096]), 1);
    let mut a = inode(1, 10);
    a.direct_blocks[0] = Some(Block::new(4));
    store.put(&a).unwrap();
    // from the cache the inode comes as it was put
    assert_eq!(Ok(Some(a.clone())), store.get(Ino::new(1)));
    store.put(&inode(2, 20)).unwrap();
    // from the volume it comes with the size that a frame keeps
    let mut kept = a.clone();
    kept.size = Byte::new(5);
    assert_eq!(Ok(Some(kept)), store.get(Ino::new(1)));
}

#[test]
fn what_is_written_back() {
    let a = inode(1, 10);
    assert_eq!(None, write_back(None, Ino::new(1)));
    assert_eq!(None, write_back(Some((1, a.clone())), Ino::new(1)));
    assert_eq!(Some(a.clone()), write_back(Some((1, a.clone())), Ino::new(2)));
    assert_eq!(Some(a.clone()), write_back(Some((1, a)), Ino::new(0)));
}

#[test]
fn the_largest_capacity_leaves_room() {
    assert!(MAX_CAPACITY >= 1 << 24);
    assert!(MAX_CAPACITY <= usize::MAX / 80);
}
