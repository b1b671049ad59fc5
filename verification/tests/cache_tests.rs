use scene_renderer::cache::{FontCache, TextureCache};

#[test]
fn test_texture_cache_miss_then_hit() {
    let mut cache = TextureCache::new();
    let path = "images/bg.png".to_string();
    assert_eq!(cache.get(&path), None);
    cache.insert(path.clone(), 3);
    assert_eq!(cache.get(&path), Some(3));
}

#[test]
fn test_texture_cache_keys_independent() {
    let mut cache = TextureCache::new();
    cache.insert("a.png".to_string(), 1);
    cache.insert("b.png".to_string(), 2);
    assert_eq!(cache.get(&"a.png".to_string()), Some(1));
    assert_eq!(cache.get(&"b.png".to_string()), Some(2));
    assert_eq!(cache.get(&"c.png".to_string()), None);
}

#[test]
fn test_font_cache_keyed_by_path_and_size() {
    let mut cache = FontCache::new();
    let path = "fonts/sans.ttf".to_string();
    assert_eq!(cache.get(&path, 12), None);
    cache.insert(path.clone(), 12, 7);
    assert_eq!(cache.get(&path, 12), Some(7));
    // the same path at another point size is a distinct key
    assert_eq!(cache.get(&path, 24), None);
    cache.insert(path.clone(), 24, 8);
    assert_eq!(cache.get(&path, 12), Some(7));
    assert_eq!(cache.get(&path, 24), Some(8));
}
