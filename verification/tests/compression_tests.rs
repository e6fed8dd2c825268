use dbkp::compression::CompressionFormat;

#[test]
fn compress() {
    let message = "Ceci est un texte test";
    let res = dbkp::compression::compress(message.as_bytes(), CompressionFormat::Zlib, 9)
        .expect("Unable to finish compressor");
    let decompressed = dbkp::compression::decompress(&res, CompressionFormat::Zlib).expect("Failed to read bytes");
    let n = decompressed.len().min(512);
    let decompressed_bytes = &decompressed[..n];
    assert_eq!(message.as_bytes(), decompressed_bytes);
}
