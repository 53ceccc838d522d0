use kernel_snippets::error::Error;

#[test]
fn errno_values_match_linux() {
    assert_eq!(Error::EIO.to_errno(), -5);
    assert_eq!(Error::ENOMEM.to_errno(), -12);
    assert_eq!(Error::EACCES.to_errno(), -13);
    assert_eq!(Error::EBUSY.to_errno(), -16);
    assert_eq!(Error::ENODEV.to_errno(), -19);
    assert_eq!(Error::EINVAL.to_errno(), -22);
    assert_eq!(Error::ENOSYS.to_errno(), -38);
    assert_eq!(Error::ETIMEDOUT.to_errno(), -110);
    assert_eq!(Error::ENOTSUPP.to_errno(), -524);
}

#[test]
fn from_errno_keeps_any_valid_errno() {
    assert_eq!(Error::from_errno(-12), Error::ENOMEM);
    assert_eq!(Error::from_errno(-524), Error::ENOTSUPP);
    assert_eq!(Error::from_errno(-7).to_errno(), -7);
    assert_eq!(Error::from_errno(-7), Error::from_errno(-7));
    assert_ne!(Error::from_errno(-7), Error::from_errno(-8));
    assert_eq!(Error::from_errno(0), Error::EINVAL);
    assert_eq!(Error::from_errno(5), Error::EINVAL);
    assert_eq!(Error::from_errno(-4096), Error::EINVAL);
}
