use lib::memory::{alloc_page, dealloc_page, get_page, init, root_heap, root_page, root_stack, Heap, Memory, Page, Roots, Stack, PAGE_SIZE, STACK_SIZE};

fn ready_roots() -> Roots {
    let mut roots = Roots::new();
    assert_eq!(init(&mut roots), Ok(()));
    roots
}

#[test]
fn page_new_is_all_zero() {
    let p = Page::new();
    assert_eq!(p.0.len(), PAGE_SIZE);
    assert!(p.0.iter().all(|w| *w == 0));
}

#[test]
fn stack_new_is_all_zero() {
    let s = Stack::new();
    assert_eq!(s.0.len(), STACK_SIZE);
    assert_eq!(STACK_SIZE, PAGE_SIZE * 8);
    assert!(s.0.iter().all(|w| *w == 0));
}

#[test]
fn heap_new_is_empty() {
    assert!(Heap::new().0.is_empty());
}

#[test]
fn memory_holds_each_kind() {
    let m = Memory::Heap(Heap::new());
    assert!(matches!(m, Memory::Heap(ref h) if h.0.is_empty()));
    let m = Memory::Page(Page::new());
    assert!(matches!(m, Memory::Page(ref p) if p.0[0] == 0));
    let m = Memory::Stack(Stack::new());
    assert!(matches!(m, Memory::Stack(ref s) if s.0[STACK_SIZE - 1] == 0));
}

#[test]
fn roots_start_absent_and_init_fills_them() {
    let roots = Roots::new();
    assert!(roots.page.is_none() && roots.stack.is_none() && roots.heap.is_none());
    let roots = ready_roots();
    assert!(roots.page.is_some() && roots.stack.is_some());
    assert_eq!(roots.heap.as_ref().unwrap().0.len(), 0);
}

#[test]
fn writes_through_root_refs_persist() {
    let mut roots = ready_roots();
    root_page(&mut roots).0[5] = 7;
    root_stack(&mut roots).0[9] = 3;
    root_heap(&mut roots).0.push(Page::new());
    assert_eq!(roots.page.unwrap().0[5], 7);
    assert_eq!(roots.stack.unwrap().0[9], 3);
    assert_eq!(roots.heap.as_ref().unwrap().0.len(), 1);
}

#[test]
fn get_page_is_none_past_the_end() {
    let mut roots = ready_roots();
    assert!(get_page(&mut roots, 0).is_none());
    let _ = alloc_page(&mut roots);
    assert!(get_page(&mut roots, 0).is_some());
    assert!(get_page(&mut roots, 1).is_none());
    assert!(get_page(&mut roots, usize::MAX).is_none());
}

#[test]
fn alloc_page_returns_old_length_and_zero_page() {
    let mut roots = ready_roots();
    let (p, i) = alloc_page(&mut roots);
    assert_eq!(i, 0);
    assert!(p.unwrap().0.iter().all(|w| *w == 0));
    let (p, i) = alloc_page(&mut roots);
    assert_eq!(i, 1);
    p.unwrap().0[0] = 42;
    assert_eq!(roots.heap.as_ref().unwrap().0.len(), 2);
    assert_eq!(get_page(&mut roots, 1).unwrap().0[0], 42);
    assert_eq!(get_page(&mut roots, 0).unwrap().0[0], 0);
}

#[test]
fn write_through_get_page_is_read_back() {
    let mut roots = ready_roots();
    let _ = alloc_page(&mut roots);
    get_page(&mut roots, 0).unwrap().0[PAGE_SIZE - 1] = 11;
    assert_eq!(get_page(&mut roots, 0).unwrap().0[PAGE_SIZE - 1], 11);
}

#[test]
fn dealloc_undoes_alloc() {
    let mut roots = ready_roots();
    let _ = alloc_page(&mut roots);
    get_page(&mut roots, 0).unwrap().0[0] = 1;
    let (_, i) = alloc_page(&mut roots);
    assert_eq!(dealloc_page(&mut roots, i), Ok(()));
    assert_eq!(roots.heap.as_ref().unwrap().0.len(), 1);
    assert_eq!(get_page(&mut roots, 0).unwrap().0[0], 1);
}

#[test]
fn dealloc_shifts_later_pages_down() {
    let mut roots = ready_roots();
    for k in 0..3u32 {
        let (p, _) = alloc_page(&mut roots);
        p.unwrap().0[0] = k + 10;
    }
    assert_eq!(dealloc_page(&mut roots, 0), Ok(()));
    assert_eq!(get_page(&mut roots, 0).unwrap().0[0], 11);
    assert_eq!(get_page(&mut roots, 1).unwrap().0[0], 12);
    assert!(get_page(&mut roots, 2).is_none());
}
